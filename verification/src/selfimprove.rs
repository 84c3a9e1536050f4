//! Self-improvement behind rails: a tally of how an allocation's gated decisions resolved,
//! the deterministic heuristic that proposes a rule refinement from it, and the resolution
//! rule under which only a human approval ever changes a strategy.
use vstd::prelude::*;

use serde_json::Value as JsonValue;

use crate::allocation::{json_field_at, rule_field, RuleField};
use crate::text::{contains_str, decimal, decimal_text, has_substring, str_eq};

verus! {

/// A stored improvement proposal.
#[derive(Clone, Debug, PartialEq)]
pub struct ProposedImprovement {
    pub id: String,
    pub allocation_id: String,
    pub strategy_id: Option<String>,
    pub rationale: String,
    pub current_rules: String,
    pub proposed_rules: String,
    pub status: String,
}

/// A compact read of how an allocation's recent decisions resolved.
#[derive(Clone, Copy, Debug, PartialEq, Eq, Structural)]
pub struct OutcomeStats {
    pub total: usize,
    pub admitted: usize,
    /// rejected for exceeding the order/size envelope
    pub rejected_size: usize,
    /// BUYs blocked by the strategy's maxNames cap
    pub blocked_maxnames: usize,
    pub holds: usize,
}

impl Default for OutcomeStats {
    fn default() -> (s: Self)
        ensures
            s == (OutcomeStats { total: 0, admitted: 0, rejected_size: 0, blocked_maxnames: 0, holds: 0 }),
    {
        OutcomeStats { total: 0, admitted: 0, rejected_size: 0, blocked_maxnames: 0, holds: 0 }
    }
}

/// One logged decision, as far as the tally reads it.
#[derive(Clone, Debug, PartialEq)]
pub struct DecisionOutcome {
    /// Whether the decision was admitted.
    pub admitted: bool,
    /// `BUY`, `SELL` or `HOLD`.
    pub action: String,
    /// The verdict recorded with the decision.
    pub verdict: String,
    /// The decision's rationale text.
    pub thesis: String,
}

/// The reasons text of a decision: verdict, a space, rationale.
pub open spec fn reasons(d: DecisionOutcome) -> Seq<char> {
    d.verdict@ + " "@ + d.thesis@
}

/// The number of decisions satisfying `f`.
pub open spec fn count_where(rows: Seq<DecisionOutcome>, f: spec_fn(DecisionOutcome) -> bool) -> nat
    decreases rows.len(),
{
    if rows.len() == 0 {
        0
    } else {
        count_where(rows.drop_last(), f) + if f(rows.last()) {
            1nat
        } else {
            0nat
        }
    }
}

/// Admitted decisions.
pub open spec fn is_admitted(d: DecisionOutcome) -> bool {
    d.admitted
}

/// HOLD decisions.
pub open spec fn is_hold(d: DecisionOutcome) -> bool {
    d.action@ == "HOLD"@
}

/// Decisions whose reasons mention exceeding the size envelope.
pub open spec fn is_size_rejected(d: DecisionOutcome) -> bool {
    has_substring(reasons(d), "exceeds"@)
}

/// Decisions whose reasons mention the names cap.
pub open spec fn is_names_blocked(d: DecisionOutcome) -> bool {
    has_substring(reasons(d), "maxNames"@)
}

proof fn lemma_count_bounded(rows: Seq<DecisionOutcome>, f: spec_fn(DecisionOutcome) -> bool)
    ensures
        count_where(rows, f) <= rows.len(),
    decreases rows.len(),
{
    if rows.len() > 0 {
        lemma_count_bounded(rows.drop_last(), f);
    }
}

/// Summarize logged decisions into [`OutcomeStats`].
pub fn tally_outcomes(rows: &[DecisionOutcome]) -> (s: OutcomeStats)
    ensures
        s.total == rows@.len(),
        s.admitted == count_where(rows@, |d: DecisionOutcome| is_admitted(d)),
        s.holds == count_where(rows@, |d: DecisionOutcome| is_hold(d)),
        s.rejected_size == count_where(rows@, |d: DecisionOutcome| is_size_rejected(d)),
        s.blocked_maxnames == count_where(rows@, |d: DecisionOutcome| is_names_blocked(d)),
{
    let mut s = OutcomeStats::default();
    let ghost fa = |d: DecisionOutcome| is_admitted(d);
    let ghost fh = |d: DecisionOutcome| is_hold(d);
    let ghost fs = |d: DecisionOutcome| is_size_rejected(d);
    let ghost fm = |d: DecisionOutcome| is_names_blocked(d);
    let mut i: usize = 0;
    while i < rows.len()
        invariant
            i <= rows@.len(),
            s.total == i,
            fa == (|d: DecisionOutcome| is_admitted(d)),
            fh == (|d: DecisionOutcome| is_hold(d)),
            fs == (|d: DecisionOutcome| is_size_rejected(d)),
            fm == (|d: DecisionOutcome| is_names_blocked(d)),
            s.admitted == count_where(rows@.take(i as int), fa),
            s.holds == count_where(rows@.take(i as int), fh),
            s.rejected_size == count_where(rows@.take(i as int), fs),
            s.blocked_maxnames == count_where(rows@.take(i as int), fm),
        decreases rows@.len() - i,
    {
        let r = &rows[i];
        assert(rows@.take(i + 1).drop_last() =~= rows@.take(i as int));
        assert(rows@.take(i + 1).last() == rows@[i as int]);
        proof {
            lemma_count_bounded(rows@.take(i as int), fa);
            lemma_count_bounded(rows@.take(i as int), fh);
            lemma_count_bounded(rows@.take(i as int), fs);
            lemma_count_bounded(rows@.take(i as int), fm);
        }
        assert(fa(rows@[i as int]) == r.admitted);
        assert(fh(rows@[i as int]) == (r.action@ == "HOLD"@));
        let reasons_text = r.verdict.clone().concat(" ").concat(r.thesis.as_str());
        s.total = s.total + 1;
        if r.admitted {
            s.admitted = s.admitted + 1;
        }
        if str_eq(r.action.as_str(), "HOLD") {
            s.holds = s.holds + 1;
        }
        if contains_str(reasons_text.as_str(), "exceeds") {
            s.rejected_size = s.rejected_size + 1;
        }
        if contains_str(reasons_text.as_str(), "maxNames") {
            s.blocked_maxnames = s.blocked_maxnames + 1;
        }
        i = i + 1;
    }
    assert(rows@.take(i as int) =~= rows@);
    s
}

/// Why a plan raises the names cap.
#[derive(Clone, Copy, Debug, PartialEq, Eq, Structural)]
pub enum RaiseCause {
    /// BUYs were blocked by the cap.
    CapBinding,
    /// At least half of the decisions were size-rejected.
    SizeRejection,
}

/// The refinement the heuristic proposes.
#[derive(Clone, Copy, Debug, PartialEq, Eq, Structural)]
pub enum ImprovementPlan {
    /// Nothing to learn or change.
    Nothing,
    /// Raise `maxNames` from `from` to `to`.
    RaiseMaxNames { from: u64, to: u64, cause: RaiseCause },
    /// Add a distress-sell rule (`sellWhenZBelow` = 1.8).
    AddDistressSell,
}

/// The raised names cap: four more, capped at forty.
pub open spec fn raised_cap(cur: u64) -> u64 {
    if cur + 4 <= 40 {
        (cur + 4) as u64
    } else {
        40
    }
}

/// The heuristic: with no decisions nothing is learnt; a binding names cap, or a size
/// rejection rate of at least one half, raises the cap (current value, 10 when unset); a
/// book that only ever held gains a distress-sell rule unless it already has one.
pub open spec fn plan_spec(s: OutcomeStats, max_names: Option<u64>, has_sell_rule: bool) -> ImprovementPlan {
    let cur = match max_names {
        Some(m) => m,
        None => 10u64,
    };
    if s.total == 0 {
        ImprovementPlan::Nothing
    } else if s.blocked_maxnames > 0 {
        ImprovementPlan::RaiseMaxNames { from: cur, to: raised_cap(cur), cause: RaiseCause::CapBinding }
    } else if s.rejected_size * 2 >= s.total {
        ImprovementPlan::RaiseMaxNames {
            from: cur,
            to: raised_cap(cur),
            cause: RaiseCause::SizeRejection,
        }
    } else if s.holds == s.total && !has_sell_rule {
        ImprovementPlan::AddDistressSell
    } else {
        ImprovementPlan::Nothing
    }
}

/// Propose a rule refinement from an allocation's outcomes.
pub fn plan_improvement(stats: &OutcomeStats, max_names: Option<u64>, has_sell_rule: bool) -> (p: ImprovementPlan)
    ensures
        p == plan_spec(*stats, max_names, has_sell_rule),
{
    if stats.total == 0 {
        return ImprovementPlan::Nothing;
    }
    let cur = match max_names {
        Some(m) => m,
        None => 10u64,
    };
    let next = if cur <= 36 {
        cur + 4
    } else {
        40
    };
    if stats.blocked_maxnames > 0 {
        ImprovementPlan::RaiseMaxNames { from: cur, to: next, cause: RaiseCause::CapBinding }
    } else if stats.rejected_size as u128 * 2 >= stats.total as u128 {
        ImprovementPlan::RaiseMaxNames { from: cur, to: next, cause: RaiseCause::SizeRejection }
    } else if stats.holds == stats.total && !has_sell_rule {
        ImprovementPlan::AddDistressSell
    } else {
        ImprovementPlan::Nothing
    }
}

/// How a resolution request is carried out.
#[derive(Clone, Copy, Debug, PartialEq, Eq, Structural)]
pub enum ResolveAction {
    /// The proposal is not pending (already resolved): nothing changes.
    Ignore,
    /// Mark it approved; when it names a strategy, apply its rules and bump the version.
    Approve { bump_strategy: bool },
    /// Mark it rejected; the strategy is untouched.
    Reject,
}

/// Only a pending (`PROPOSED`) proposal is resolved.
pub open spec fn resolve_spec(status: Seq<char>, approve: bool, has_strategy: bool) -> ResolveAction {
    if status != "PROPOSED"@ {
        ResolveAction::Ignore
    } else if approve {
        ResolveAction::Approve { bump_strategy: has_strategy }
    } else {
        ResolveAction::Reject
    }
}

/// Decide how to resolve a stored proposal.
pub fn resolve_action(status: &str, approve: bool, has_strategy: bool) -> (a: ResolveAction)
    ensures
        a == resolve_spec(status@, approve, has_strategy),
{
    if !str_eq(status, "PROPOSED") {
        ResolveAction::Ignore
    } else if approve {
        ResolveAction::Approve { bump_strategy: has_strategy }
    } else {
        ResolveAction::Reject
    }
}

/// Nothing auto-applies and resolution is idempotent: a strategy changes only on the
/// approval of a pending proposal, and a resolved proposal resolves to nothing again.
pub proof fn lemma_only_approval_changes_strategy(
    status: Seq<char>,
    approve: bool,
    has_strategy: bool,
)
    ensures
        resolve_spec(status, approve, has_strategy) == (ResolveAction::Approve {
            bump_strategy: true,
        }) ==> approve && has_strategy && status == "PROPOSED"@,
        status == "APPROVED"@ || status == "REJECTED"@ ==> resolve_spec(status, approve, has_strategy)
            == ResolveAction::Ignore,
{
    reveal_strlit("PROPOSED");
    reveal_strlit("APPROVED");
    reveal_strlit("REJECTED");
    assert("APPROVED"@[0] != "PROPOSED"@[0]);
    assert("REJECTED"@[0] != "PROPOSED"@[0]);
}

/// A raise never sets the names cap above forty, and a plan proposes nothing without
/// decisions.
pub proof fn lemma_plan_bounds(s: OutcomeStats, max_names: Option<u64>, has_sell_rule: bool)
    ensures
        plan_spec(s, max_names, has_sell_rule) matches ImprovementPlan::RaiseMaxNames { to, .. } ==> to <= 40,
        s.total == 0 ==> plan_spec(s, max_names, has_sell_rule) == ImprovementPlan::Nothing,
{
}

/// Which plan each kind of outcome leads to: a binding names cap raises the cap; otherwise
/// size rejections on at least half the decisions raise it; otherwise a distress-sell rule is
/// proposed exactly when every decision was a HOLD and the strategy has no sell rule yet; a
/// raised cap is four more than the current one (ten when unset), at most forty.
pub proof fn lemma_plan_cases(s: OutcomeStats, max_names: Option<u64>, has_sell_rule: bool)
    ensures
        plan_spec(s, max_names, has_sell_rule) == ImprovementPlan::AddDistressSell <==> (s.total > 0
            && s.blocked_maxnames == 0 && s.rejected_size * 2 < s.total && s.holds == s.total
            && !has_sell_rule),
        (plan_spec(s, max_names, has_sell_rule) matches ImprovementPlan::RaiseMaxNames {
            cause: RaiseCause::CapBinding,
            ..
        }) <==> (s.total > 0 && s.blocked_maxnames > 0),
        (plan_spec(s, max_names, has_sell_rule) matches ImprovementPlan::RaiseMaxNames {
            cause: RaiseCause::SizeRejection,
            ..
        }) <==> (s.total > 0 && s.blocked_maxnames == 0 && s.rejected_size * 2 >= s.total),
        plan_spec(s, max_names, has_sell_rule) matches ImprovementPlan::RaiseMaxNames { from, to, .. }
            ==> from == (if max_names is Some { max_names->0 } else { 10 }) && (to == from + 4 || (
        to == 40 && from + 4 > 40)),
{
}

/// What kind of JSON a text is.
#[derive(Clone, Copy, Debug, PartialEq, Eq, Structural)]
pub enum JsonKind {
    /// Not JSON.
    Unparsable,
    /// A JSON object.
    Object,
    /// JSON `null`.
    Null,
    /// Any other JSON value.
    Other,
}

/// What kind of JSON serde_json reads `text` as.
pub uninterp spec fn json_kind_of(text: Seq<char>) -> JsonKind;

/// Parse `text` with `serde_json::from_str::<Value>` and tell the variant apart. Which texts
/// parse, and as what, is only named by `json_kind_of`.
#[verifier::external_body]
fn json_kind(text: &str) -> (k: JsonKind)
    ensures
        k == json_kind_of(text@),
{
    match serde_json::from_str::<JsonValue>(text) {
        Err(_) => JsonKind::Unparsable,
        Ok(JsonValue::Object(_)) => JsonKind::Object,
        Ok(JsonValue::Null) => JsonKind::Null,
        Ok(_) => JsonKind::Other,
    }
}

/// The text serde_json writes for the JSON object `text` with `key` set to the JSON value
/// `value_json`; `None` where `text` is no JSON object or `value_json` is not JSON.
pub uninterp spec fn json_inserted(text: Seq<char>, key: Seq<char>, value_json: Seq<char>) -> Option<Seq<char>>;

/// Parse `value_json` and `text` with `serde_json::from_str::<Value>`; into an object, insert
/// `key` with `Map::insert` and serialize with `serde_json::to_string`. `None` where either
/// does not parse or `text` is no object. The text written is only named by `json_inserted`.
#[verifier::external_body]
fn json_object_insert(text: &str, key: &str, value_json: &str) -> (r: Option<String>)
    ensures
        r matches Some(t) ==> json_inserted(text@, key@, value_json@) == Some(t@),
        r is None ==> json_inserted(text@, key@, value_json@) is None,
{
    let value: JsonValue = serde_json::from_str(value_json).ok()?;
    match serde_json::from_str::<JsonValue>(text) {
        Ok(JsonValue::Object(mut m)) => {
            m.insert(key.to_string(), value);
            serde_json::to_string(&JsonValue::Object(m)).ok()
        },
        _ => None,
    }
}

/// The rules text with `key` set to `value_json`: rules that are not JSON, or JSON `null`,
/// are taken as an empty object; rules that are any other non-object JSON value cannot take
/// the key.
pub open spec fn rules_with(rules: Seq<char>, key: Seq<char>, value_json: Seq<char>) -> Option<Seq<char>> {
    match json_kind_of(rules) {
        JsonKind::Object => json_inserted(rules, key, value_json),
        JsonKind::Null => json_inserted("{}"@, key, value_json),
        JsonKind::Unparsable => json_inserted("{}"@, key, value_json),
        JsonKind::Other => None,
    }
}

fn set_rule(rules: &str, key: &str, value_json: &str) -> (r: Option<String>)
    ensures
        r matches Some(t) ==> rules_with(rules@, key@, value_json@) == Some(t@),
        r is None ==> rules_with(rules@, key@, value_json@) is None,
{
    match json_kind(rules) {
        JsonKind::Object => json_object_insert(rules, key, value_json),
        JsonKind::Null => json_object_insert("{}", key, value_json),
        JsonKind::Unparsable => json_object_insert("{}", key, value_json),
        JsonKind::Other => None,
    }
}

/// The names cap a strategy's rules set: a non-negative integer `maxNames`.
pub open spec fn rules_max_names(rules: Seq<char>) -> Option<u64> {
    match json_field_at(rules, "maxNames"@) {
        RuleField::Number { unsigned: Some(n) } => Some(n),
        _ => None,
    }
}

/// Whether a strategy's rules hold a `sellWhenZBelow` key (of any JSON value).
pub open spec fn rules_have_sell_rule(rules: Seq<char>) -> bool {
    !(json_field_at(rules, "sellWhenZBelow"@) is Absent || json_field_at(
        rules,
        "sellWhenZBelow"@,
    ) is Unparsable)
}

/// The rules text a plan proposes: `maxNames` set to the raised cap, or `sellWhenZBelow` set
/// to 1.8; nothing for an empty plan.
pub open spec fn proposed_rules_spec(plan: ImprovementPlan, rules: Seq<char>) -> Option<Seq<char>> {
    match plan {
        ImprovementPlan::Nothing => None,
        ImprovementPlan::RaiseMaxNames { to, .. } => rules_with(rules, "maxNames"@, decimal(to as nat)),
        ImprovementPlan::AddDistressSell => rules_with(rules, "sellWhenZBelow"@, "1.8"@),
    }
}

/// Propose a refinement of a strategy's rules text from its allocation's outcomes: the plan
/// of the heuristic over the rules' current `maxNames` and `sellWhenZBelow`, and the rules
/// text with that change made. The text is `None` for an empty plan, and where the rules
/// text is a JSON value that cannot take a key (neither an object nor `null`).
pub fn propose_rules(stats: &OutcomeStats, rules: &str) -> (r: (ImprovementPlan, Option<String>))
    ensures
        r.0 == plan_spec(*stats, rules_max_names(rules@), rules_have_sell_rule(rules@)),
        r.1 matches Some(t) ==> proposed_rules_spec(r.0, rules@) == Some(t@),
        r.1 is None ==> proposed_rules_spec(r.0, rules@) is None,
        r.0 == ImprovementPlan::Nothing ==> r.1 is None,
{
    let names = rule_field(rules, "maxNames");
    let max_names = match names {
        RuleField::Number { unsigned: Some(n) } => Some(n),
        _ => None,
    };
    let sell = rule_field(rules, "sellWhenZBelow");
    let has_sell_rule = !(sell == RuleField::Absent || sell == RuleField::Unparsable);
    let plan = plan_improvement(stats, max_names, has_sell_rule);
    match plan {
        ImprovementPlan::Nothing => (plan, None),
        ImprovementPlan::RaiseMaxNames { to, .. } => {
            let cap = decimal_text(to);
            (plan, set_rule(rules, "maxNames", cap.as_str()))
        },
        ImprovementPlan::AddDistressSell => (plan, set_rule(rules, "sellWhenZBelow", "1.8")),
    }
}

} // verus!
