use ponoma::servicing::RequestStatus::{Cancelled, InProgress, Open, Resolved};
use ponoma::servicing::{can_transition, default_jobs, topics, RequestStatus};

#[test]
fn open_can_start_or_cancel() {
    assert!(can_transition(Open, InProgress));
    assert!(can_transition(Open, Cancelled));
    assert!(!can_transition(Open, Resolved));
}

#[test]
fn in_progress_resolves_or_cancels() {
    assert!(can_transition(InProgress, Resolved));
    assert!(can_transition(InProgress, Cancelled));
    assert!(!can_transition(InProgress, Open));
}

#[test]
fn terminal_states_are_final() {
    assert!(!can_transition(Resolved, InProgress));
    assert!(!can_transition(Cancelled, Open));
    assert!(Resolved.is_terminal());
    assert!(!Open.is_terminal());
}

#[test]
fn status_names_roundtrip() {
    for s in [Open, InProgress, Resolved, Cancelled] {
        assert_eq!(RequestStatus::from_str_name(s.as_str()), s);
    }
}

#[test]
fn default_jobs_present() {
    let jobs = default_jobs();
    assert!(jobs.iter().any(|j| j.name == "TLH scan"));
    assert!(jobs.iter().all(|j| j.enabled));
}

#[test]
fn nothing_moves_back_to_open_or_out_of_a_terminal_state() {
    let all = [Open, InProgress, Resolved, Cancelled];
    for a in all {
        assert!(!can_transition(a, Open));
        for b in all {
            if a.is_terminal() {
                assert!(!can_transition(a, b));
            }
            if can_transition(a, b) {
                assert!(!can_transition(b, a));
            }
        }
    }
    assert_eq!(RequestStatus::from_str_name("garbage"), Open);
}

#[test]
fn default_job_cadences_and_topics() {
    let jobs = default_jobs();
    let cad: Vec<&str> = jobs.iter().map(|j| j.cadence.as_str()).collect();
    assert_eq!(cad, vec!["daily", "weekly", "daily", "weekly", "monthly"]);
    assert!(jobs.iter().all(|j| j.last_run.is_none()));
    let t = topics();
    assert_eq!(t.len(), 8);
    assert_eq!(t[4], "Account Transfer (ACAT)");
}
