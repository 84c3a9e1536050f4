use ponoma::agent::{sort_by_priority, Recommendation};
use ponoma::allocation::{base_action, rebalance_side, side_bias, tick_action, PolicyGates};
use ponoma::domain::TradeAction;
use ponoma::selfimprove::{
    plan_improvement, propose_rules, resolve_action, tally_outcomes, DecisionOutcome, ImprovementPlan, OutcomeStats,
    RaiseCause, ResolveAction,
};
use ponoma::thesis::{Verdict, Zone};

fn gates(distress_sell: bool, max_names: Option<usize>, buy_only: bool, sell_only: bool) -> PolicyGates {
    PolicyGates { distress_sell, max_names, buy_only, sell_only }
}

#[test]
fn distress_rule_sells_regardless_of_base() {
    let p = gates(true, None, true, false);
    assert_eq!(p.decide(None, Zone::Distress, 0), (Some(TradeAction::Sell), Some("strategy: distress sell rule")));
    assert_eq!(p.decide(Some(TradeAction::Buy), Zone::Safe, 0), (Some(TradeAction::Buy), None));
}

#[test]
fn side_restrictions_and_names_cap_force_hold() {
    let sell_only = gates(false, None, false, true);
    assert_eq!(sell_only.decide(Some(TradeAction::Buy), Zone::Safe, 0), (None, Some("strategy: sell-only")));
    assert_eq!(sell_only.decide(Some(TradeAction::Sell), Zone::Safe, 0), (Some(TradeAction::Sell), None));
    let buy_only = gates(false, None, true, false);
    assert_eq!(buy_only.decide(Some(TradeAction::Sell), Zone::Safe, 0), (None, Some("strategy: buy-only")));
    let capped = gates(false, Some(3), false, false);
    assert_eq!(capped.decide(Some(TradeAction::Buy), Zone::Safe, 3), (None, Some("strategy: maxNames reached")));
    assert_eq!(capped.decide(Some(TradeAction::Buy), Zone::Safe, 2), (Some(TradeAction::Buy), None));
    assert_eq!(capped.decide(Some(TradeAction::Sell), Zone::Safe, 9), (Some(TradeAction::Sell), None));
    assert_eq!(capped.decide(None, Zone::Grey, 9), (None, None));
}

#[test]
fn kind_implies_side_bias() {
    assert_eq!(side_bias("distress-avoid", true, false), (false, true));
    assert_eq!(side_bias("tactical-derisk", false, false), (false, true));
    assert_eq!(side_bias("follow-disclosures", false, true), (true, false));
    assert_eq!(side_bias("rotation", true, true), (true, true));
}

#[test]
fn verdict_maps_to_base_action() {
    assert_eq!(base_action(Verdict::Opportunity), Some(TradeAction::Buy));
    assert_eq!(base_action(Verdict::Avoid), Some(TradeAction::Sell));
    assert_eq!(base_action(Verdict::Neutral), None);
    assert_eq!(base_action(Verdict::Caution), None);
}

#[test]
fn rebalance_side_check() {
    assert_eq!(rebalance_side(TradeAction::Buy, None), (Some(TradeAction::Buy), None));
    let sell_only = gates(false, None, false, true);
    assert_eq!(rebalance_side(TradeAction::Buy, Some(sell_only)), (None, Some("strategy: sell-only")));
    assert_eq!(rebalance_side(TradeAction::Sell, Some(sell_only)), (Some(TradeAction::Sell), None));
    let buy_only = gates(false, None, true, false);
    assert_eq!(rebalance_side(TradeAction::Sell, Some(buy_only)), (None, Some("strategy: buy-only")));
    let both = gates(false, None, true, true);
    assert_eq!(rebalance_side(TradeAction::Sell, Some(both)), (None, Some("strategy: buy-only")));
    assert_eq!(rebalance_side(TradeAction::Buy, Some(both)), (None, Some("strategy: sell-only")));
}

fn outcome(admitted: bool, action: &str, verdict: &str, thesis: &str) -> DecisionOutcome {
    DecisionOutcome {
        admitted,
        action: action.to_string(),
        verdict: verdict.to_string(),
        thesis: thesis.to_string(),
    }
}

#[test]
fn tally_counts_each_kind_of_outcome() {
    let rows = vec![
        outcome(true, "BUY", "filled (paper)", "Altman safe"),
        outcome(false, "BUY", "order notional exceeds limit", "Altman safe"),
        outcome(false, "HOLD", "hold", "grey; strategy: maxNames reached"),
        outcome(false, "HOLD", "no actionable edge", "grey"),
    ];
    let s = tally_outcomes(&rows);
    assert_eq!(s, OutcomeStats { total: 4, admitted: 1, rejected_size: 1, blocked_maxnames: 1, holds: 2 });
    assert_eq!(tally_outcomes(&[]), OutcomeStats::default());
}

#[test]
fn plan_follows_the_heuristic() {
    let none = OutcomeStats::default();
    assert_eq!(plan_improvement(&none, Some(5), false), ImprovementPlan::Nothing);
    let blocked = OutcomeStats { total: 4, admitted: 1, rejected_size: 0, blocked_maxnames: 1, holds: 2 };
    assert_eq!(
        plan_improvement(&blocked, None, false),
        ImprovementPlan::RaiseMaxNames { from: 10, to: 14, cause: RaiseCause::CapBinding }
    );
    assert_eq!(
        plan_improvement(&blocked, Some(38), false),
        ImprovementPlan::RaiseMaxNames { from: 38, to: 40, cause: RaiseCause::CapBinding }
    );
    let sized = OutcomeStats { total: 4, admitted: 0, rejected_size: 2, blocked_maxnames: 0, holds: 0 };
    assert_eq!(
        plan_improvement(&sized, Some(3), false),
        ImprovementPlan::RaiseMaxNames { from: 3, to: 7, cause: RaiseCause::SizeRejection }
    );
    let holds = OutcomeStats { total: 3, admitted: 0, rejected_size: 0, blocked_maxnames: 0, holds: 3 };
    assert_eq!(plan_improvement(&holds, None, false), ImprovementPlan::AddDistressSell);
    assert_eq!(plan_improvement(&holds, None, true), ImprovementPlan::Nothing);
}

#[test]
fn only_pending_proposals_resolve() {
    assert_eq!(resolve_action("PROPOSED", true, true), ResolveAction::Approve { bump_strategy: true });
    assert_eq!(resolve_action("PROPOSED", true, false), ResolveAction::Approve { bump_strategy: false });
    assert_eq!(resolve_action("PROPOSED", false, true), ResolveAction::Reject);
    assert_eq!(resolve_action("APPROVED", true, true), ResolveAction::Ignore);
    assert_eq!(resolve_action("REJECTED", false, true), ResolveAction::Ignore);
}

fn rec(kind: &str, priority: u8) -> Recommendation {
    Recommendation { kind: kind.to_string(), priority, detail: String::new(), admissible: true }
}

#[test]
fn recommendations_sort_stably_by_priority() {
    let recs = vec![rec("cash-drag", 3), rec("harvest", 2), rec("concentration", 1), rec("rebalance", 2)];
    let kinds: Vec<String> = sort_by_priority(recs).into_iter().map(|r| r.kind).collect();
    assert_eq!(kinds, vec!["concentration", "harvest", "rebalance", "cash-drag"]);
    assert!(sort_by_priority(Vec::new()).is_empty());
}

fn strategy(kind: &str, rules: &str) -> ponoma::allocation::Strategy {
    ponoma::allocation::Strategy {
        id: "s1".to_string(),
        name: "test".to_string(),
        kind: kind.to_string(),
        description: String::new(),
        model_id: None,
        rules: rules.to_string(),
        version: 1,
    }
}

#[test]
fn policy_is_read_from_kind_and_rules() {
    assert_eq!(
        PolicyGates::from_strategy(&strategy("rotation", r#"{"maxNames": 3, "sellWhenZBelow": 1.8}"#)),
        gates(true, Some(3), false, false)
    );
    assert_eq!(
        PolicyGates::from_strategy(&strategy("distress-avoid", "not json")),
        gates(false, None, false, true)
    );
    assert_eq!(
        PolicyGates::from_strategy(&strategy("rotation", r#"{"buyOnly": true, "sellOnly": "yes", "maxNames": -2}"#)),
        gates(false, None, true, false)
    );
    assert_eq!(
        PolicyGates::from_strategy(&strategy("follow-disclosures", r#"{"sellOnly": true, "maxNames": 2.5}"#)),
        gates(false, None, true, false)
    );
}

#[test]
fn tick_action_combines_thesis_and_policy() {

    assert_eq!(tick_action(None, Verdict::Opportunity, Zone::Safe, 0), (Some(TradeAction::Buy), None));
    assert_eq!(tick_action(None, Verdict::Neutral, Zone::Grey, 0), (None, None));
    let derisk = gates(true, None, false, true);
    assert_eq!(
        tick_action(Some(derisk), Verdict::Neutral, Zone::Distress, 0),
        (Some(TradeAction::Sell), Some("strategy: distress sell rule"))
    );
    assert_eq!(
        tick_action(Some(derisk), Verdict::Opportunity, Zone::Safe, 0),
        (None, Some("strategy: sell-only"))
    );
}

#[test]
fn proposed_rules_text_carries_the_change() {
    let blocked = OutcomeStats { total: 4, admitted: 1, rejected_size: 0, blocked_maxnames: 1, holds: 2 };
    let holds = OutcomeStats { total: 3, admitted: 0, rejected_size: 0, blocked_maxnames: 0, holds: 3 };
    let raise = |from: u64, to: u64| ImprovementPlan::RaiseMaxNames { from, to, cause: RaiseCause::CapBinding };
    assert_eq!(
        propose_rules(&blocked, r#"{"maxNames": 3, "kind": "x"}"#),
        (raise(3, 7), Some(r#"{"kind":"x","maxNames":7}"#.to_string()))
    );
    assert_eq!(propose_rules(&blocked, "not json"), (raise(10, 14), Some(r#"{"maxNames":14}"#.to_string())));
    assert_eq!(propose_rules(&blocked, "null"), (raise(10, 14), Some(r#"{"maxNames":14}"#.to_string())));
    assert_eq!(propose_rules(&blocked, "[1]"), (raise(10, 14), None));
    assert_eq!(propose_rules(&blocked, "5"), (raise(10, 14), None));
    assert_eq!(
        propose_rules(&holds, "{}"),
        (ImprovementPlan::AddDistressSell, Some(r#"{"sellWhenZBelow":1.8}"#.to_string()))
    );
    assert_eq!(propose_rules(&holds, r#"{"sellWhenZBelow": "low"}"#), (ImprovementPlan::Nothing, None));
    assert_eq!(propose_rules(&OutcomeStats::default(), "{}"), (ImprovementPlan::Nothing, None));
}
