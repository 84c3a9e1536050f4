//! The agentic operating model's decision rules: the strategy policy layered over the base
//! thesis, the kind-implied side bias, and the side check applied while rebalancing.
//! Strategies can only narrow what the loop does, never widen it.
use vstd::prelude::*;

use crate::domain::TradeAction;
use crate::text::str_eq;
use crate::thesis::{Verdict, Zone};

verus! {

/// A first-class trading system (a versioned policy) assignable to an allocation.
#[derive(Clone, Debug, PartialEq)]
pub struct Strategy {
    pub id: String,
    pub name: String,
    pub kind: String,
    pub description: String,
    pub model_id: Option<String>,
    pub rules: String,
    pub version: i64,
}

/// Outcome of one loop tick for one candidate ticker.
#[derive(Clone, Debug, PartialEq)]
pub struct TickResult {
    pub ticker: String,
    pub action: String,
    pub admitted: bool,
    pub filled: bool,
    pub thesis: String,
    pub verdict: String,
}

/// What a strategy's policy gates on: whether it carries a distress-sell rule, its cap on
/// distinct holdings, and its side restrictions.
#[derive(Clone, Copy, Debug, PartialEq, Eq, Structural)]
pub struct PolicyGates {
    /// The strategy sells any distress-zone name (rules: `sellWhenZBelow` present).
    pub distress_sell: bool,
    /// Cap on the number of distinct holdings (rules: `maxNames`).
    pub max_names: Option<usize>,
    /// Only BUYs are allowed.
    pub buy_only: bool,
    /// Only SELLs are allowed.
    pub sell_only: bool,
}

/// The policy decision: the (possibly overridden) action and, when the policy intervened,
/// its reason.
pub open spec fn decide_spec(p: PolicyGates, base: Option<TradeAction>, zone: Zone, held_names: usize) -> (
    Option<TradeAction>,
    Option<Seq<char>>,
) {
    if p.distress_sell && zone == Zone::Distress {
        (Some(TradeAction::Sell), Some("strategy: distress sell rule"@))
    } else if base == Some(TradeAction::Buy) && p.sell_only {
        (None, Some("strategy: sell-only"@))
    } else if base == Some(TradeAction::Sell) && p.buy_only {
        (None, Some("strategy: buy-only"@))
    } else if base == Some(TradeAction::Buy) && p.max_names is Some && held_names
        >= p.max_names->0 {
        (None, Some("strategy: maxNames reached"@))
    } else {
        (base, None)
    }
}

impl PolicyGates {
    /// Apply the policy to a base action for one candidate: a distress-zone name is sold
    /// under a distress rule; otherwise the side restrictions and the names cap may force a
    /// HOLD (`None`) with a reason.
    pub fn decide(&self, base: Option<TradeAction>, zone: Zone, held_names: usize) -> (r: (
        Option<TradeAction>,
        Option<&'static str>,
    ))
        ensures
            r.0 == decide_spec(*self, base, zone, held_names).0,
            r.1 matches Some(s) ==> decide_spec(*self, base, zone, held_names).1 == Some(s@),
            r.1 is None ==> decide_spec(*self, base, zone, held_names).1 is None,
    {
        if self.distress_sell && zone == Zone::Distress {
            return (Some(TradeAction::Sell), Some("strategy: distress sell rule"));
        }
        match base {
            Some(TradeAction::Buy) if self.sell_only => (None, Some("strategy: sell-only")),
            Some(TradeAction::Sell) if self.buy_only => (None, Some("strategy: buy-only")),
            Some(TradeAction::Buy) if self.max_names.is_some() && held_names
                >= self.max_names.unwrap() => (None, Some("strategy: maxNames reached")),
            other => (other, None),
        }
    }
}

/// What a strategy's rules JSON holds under one key, as far as the policy reads it.
#[derive(Clone, Copy, Debug, PartialEq, Eq, Structural)]
pub enum RuleField {
    /// The text is not JSON at all.
    Unparsable,
    /// The text is JSON but no object, or an object without the key.
    Absent,
    /// A JSON number; `unsigned` is its value when it is a non-negative integer that fits
    /// a `u64`.
    Number { unsigned: Option<u64> },
    /// A JSON boolean.
    Bool(bool),
    /// Any other JSON value (string, array, object, null).
    Other,
}

/// What serde_json reads under `key` of the JSON text `text`.
pub uninterp spec fn json_field_at(text: Seq<char>, key: Seq<char>) -> RuleField;

/// Parse `text` with `serde_json::from_str::<Value>` and look `key` up with `Value::get`,
/// classifying what is there (`Value::Number` with `Number::as_u64`, `Value::Bool`).
/// A parse error is reported as `Unparsable`. Nothing is claimed about which texts parse:
/// the result is named by `json_field_at`.
#[verifier::external_body]
pub(crate) fn rule_field(text: &str, key: &str) -> (f: RuleField)
    ensures
        f == json_field_at(text@, key@),
{
    match serde_json::from_str::<serde_json::Value>(text) {
        Err(_) => RuleField::Unparsable,
        Ok(v) => match v.get(key) {
            None => RuleField::Absent,
            Some(serde_json::Value::Number(n)) => RuleField::Number { unsigned: n.as_u64() },
            Some(serde_json::Value::Bool(b)) => RuleField::Bool(*b),
            Some(_) => RuleField::Other,
        },
    }
}

/// The policy a strategy imposes: a `sellWhenZBelow` number turns on the distress-sell
/// rule, a non-negative integer `maxNames` caps the names, and the side restriction comes
/// from the kind or, for other kinds, from boolean `buyOnly` / `sellOnly` rules. Rules that
/// are not JSON impose nothing.
pub open spec fn policy_spec(kind: Seq<char>, rules: Seq<char>) -> PolicyGates {
    let sides = side_bias_spec(
        kind,
        json_field_at(rules, "buyOnly"@) == RuleField::Bool(true),
        json_field_at(rules, "sellOnly"@) == RuleField::Bool(true),
    );
    PolicyGates {
        distress_sell: json_field_at(rules, "sellWhenZBelow"@) is Number,
        max_names: match json_field_at(rules, "maxNames"@) {
            RuleField::Number { unsigned: Some(n) } => Some(n as usize),
            _ => None,
        },
        buy_only: sides.0,
        sell_only: sides.1,
    }
}

impl PolicyGates {
    /// The decision policy of a strategy, read from its kind and its rules JSON; rules that
    /// do not parse impose nothing beyond the kind's side bias.
    pub fn from_strategy(s: &Strategy) -> (p: PolicyGates)
        ensures
            p == policy_spec(s.kind@, s.rules@),
    {
        let distress = rule_field(s.rules.as_str(), "sellWhenZBelow");
        let names = rule_field(s.rules.as_str(), "maxNames");
        let buy = rule_field(s.rules.as_str(), "buyOnly");
        let sell = rule_field(s.rules.as_str(), "sellOnly");
        let max_names = match names {
            RuleField::Number { unsigned: Some(n) } => Some(n as usize),
            _ => None,
        };
        let sides = side_bias(
            s.kind.as_str(),
            buy == RuleField::Bool(true),
            sell == RuleField::Bool(true),
        );
        PolicyGates {
            distress_sell: matches!(distress, RuleField::Number { .. }),
            max_names,
            buy_only: sides.0,
            sell_only: sides.1,
        }
    }
}

/// The side bias a strategy kind implies: `distress-avoid` and `tactical-derisk` are
/// sell-only, `follow-disclosures` is buy-only, any other kind takes the rules' flags.
pub open spec fn side_bias_spec(kind: Seq<char>, rules_buy_only: bool, rules_sell_only: bool) -> (bool, bool) {
    if kind == "distress-avoid"@ || kind == "tactical-derisk"@ {
        (false, true)
    } else if kind == "follow-disclosures"@ {
        (true, false)
    } else {
        (rules_buy_only, rules_sell_only)
    }
}

/// `(buy_only, sell_only)` for a strategy kind and the rules' own flags.
pub fn side_bias(kind: &str, rules_buy_only: bool, rules_sell_only: bool) -> (r: (bool, bool))
    ensures
        r == side_bias_spec(kind@, rules_buy_only, rules_sell_only),
{
    if str_eq(kind, "distress-avoid") || str_eq(kind, "tactical-derisk") {
        (false, true)
    } else if str_eq(kind, "follow-disclosures") {
        (true, false)
    } else {
        (rules_buy_only, rules_sell_only)
    }
}

/// The loop's base decision: Opportunity buys, Avoid sells, anything else holds.
pub open spec fn base_action_spec(v: Verdict) -> Option<TradeAction> {
    match v {
        Verdict::Opportunity => Some(TradeAction::Buy),
        Verdict::Avoid => Some(TradeAction::Sell),
        _ => None,
    }
}

/// The base action for a thesis verdict.
pub fn base_action(v: Verdict) -> (a: Option<TradeAction>)
    ensures
        a == base_action_spec(v),
{
    match v {
        Verdict::Opportunity => Some(TradeAction::Buy),
        Verdict::Avoid => Some(TradeAction::Sell),
        _ => None,
    }
}

/// The action a loop tick takes for one candidate before sizing: the thesis's base action,
/// narrowed (or, on a distress rule, overridden) by the strategy's policy when there is one.
pub open spec fn tick_action_spec(policy: Option<PolicyGates>, v: Verdict, zone: Zone, held_names: usize) -> (
    Option<TradeAction>,
    Option<Seq<char>>,
) {
    match policy {
        None => (base_action_spec(v), None),
        Some(p) => decide_spec(p, base_action_spec(v), zone, held_names),
    }
}

/// Decide a loop tick's action for one candidate; `None` holds, and the reason says why
/// the policy intervened.
pub fn tick_action(policy: Option<PolicyGates>, v: Verdict, zone: Zone, held_names: usize) -> (r: (
    Option<TradeAction>,
    Option<&'static str>,
))
    ensures
        r.0 == tick_action_spec(policy, v, zone, held_names).0,
        r.1 matches Some(s) ==> tick_action_spec(policy, v, zone, held_names).1 == Some(s@),
        r.1 is None ==> tick_action_spec(policy, v, zone, held_names).1 is None,
{
    let base = base_action(v);
    match policy {
        None => (base, None),
        Some(p) => p.decide(base, zone, held_names),
    }
}

/// Without a strategy the loop follows the thesis; with one it can only hold where the
/// thesis acted, except that a distress rule sells a distress-zone name.
pub proof fn lemma_tick_follows_thesis_or_narrows(
    policy: Option<PolicyGates>,
    v: Verdict,
    zone: Zone,
    held_names: usize,
)
    ensures
        policy is None ==> tick_action_spec(policy, v, zone, held_names).0 == base_action_spec(v),
        policy matches Some(p) && !(p.distress_sell && zone == Zone::Distress) ==> (
        tick_action_spec(policy, v, zone, held_names).0 == base_action_spec(v) || tick_action_spec(
            policy,
            v,
            zone,
            held_names,
        ).0 is None),
{
}

/// The side check a rebalance applies: a sell-only policy allows only SELLs and a buy-only
/// policy only BUYs, so a BUY is blocked whenever the policy is sell-only and a SELL whenever
/// it is buy-only.
pub open spec fn rebalance_side_spec(action: TradeAction, policy: Option<PolicyGates>) -> (
    Option<TradeAction>,
    Option<Seq<char>>,
) {
    match policy {
        None => (Some(action), None),
        Some(p) => if action == TradeAction::Buy && p.sell_only {
            (None, Some("strategy: sell-only"@))
        } else if action == TradeAction::Sell && p.buy_only {
            (None, Some("strategy: buy-only"@))
        } else {
            (Some(action), None)
        },
    }
}

/// Apply the strategy's side restriction to a rebalance trade.
pub fn rebalance_side(action: TradeAction, policy: Option<PolicyGates>) -> (r: (
    Option<TradeAction>,
    Option<&'static str>,
))
    ensures
        r.0 == rebalance_side_spec(action, policy).0,
        r.1 matches Some(s) ==> rebalance_side_spec(action, policy).1 == Some(s@),
        r.1 is None ==> rebalance_side_spec(action, policy).1 is None,
{
    match policy {
        None => (Some(action), None),
        Some(p) => match action {
            TradeAction::Buy if p.sell_only => (None, Some("strategy: sell-only")),
            TradeAction::Sell if p.buy_only => (None, Some("strategy: buy-only")),
            _ => (Some(action), None),
        },
    }
}

/// Strategies only narrow: without a distress-sell trigger the policy either keeps the base
/// action or forces a HOLD, and whenever it changes the action it says why.
pub proof fn lemma_policy_only_narrows(
    p: PolicyGates,
    base: Option<TradeAction>,
    zone: Zone,
    held_names: usize,
)
    ensures
        !(p.distress_sell && zone == Zone::Distress) ==> (decide_spec(p, base, zone, held_names).0
            == base || decide_spec(p, base, zone, held_names).0 is None),
        decide_spec(p, base, zone, held_names).0 != base ==> decide_spec(
            p,
            base,
            zone,
            held_names,
        ).1 is Some,
        p.distress_sell && zone == Zone::Distress ==> decide_spec(p, base, zone, held_names).0
            == Some(TradeAction::Sell),
{
}

/// A held-name cap binds only BUYs: a SELL is never blocked by it.
pub proof fn lemma_names_cap_never_blocks_sells(p: PolicyGates, zone: Zone, held_names: usize)
    requires
        !p.buy_only,
    ensures
        decide_spec(p, Some(TradeAction::Sell), zone, held_names).0 == Some(TradeAction::Sell),
{
}

/// A rebalance side check never turns one side into the other; a sell-only policy never
/// lets a BUY through and a buy-only policy never a SELL, as in the loop tick.
pub proof fn lemma_rebalance_side_keeps_direction(action: TradeAction, policy: Option<PolicyGates>)
    ensures
        rebalance_side_spec(action, policy).0 == Some(action) || rebalance_side_spec(
            action,
            policy,
        ).0 is None,
        policy is None ==> rebalance_side_spec(action, policy).0 == Some(action),
        (policy matches Some(p) && p.sell_only) ==> rebalance_side_spec(TradeAction::Buy, policy).0
            is None,
        (policy matches Some(p) && p.buy_only) ==> rebalance_side_spec(TradeAction::Sell, policy).0
            is None,
        (policy matches Some(p) && p.sell_only) ==> decide_spec(
            policy->0,
            Some(TradeAction::Buy),
            Zone::Safe,
            0,
        ).0 is None,
{
}

/// A strategy kind's side bias overrides its rules: `distress-avoid` and `tactical-derisk`
/// strategies are sell-only and `follow-disclosures` ones buy-only, whatever the rules say.
pub proof fn lemma_kind_bias_overrides_rules(kind: Seq<char>, rules: Seq<char>)
    ensures
        kind == "distress-avoid"@ || kind == "tactical-derisk"@ ==> policy_spec(kind, rules).sell_only
            && !policy_spec(kind, rules).buy_only,
        kind == "follow-disclosures"@ ==> policy_spec(kind, rules).buy_only && !policy_spec(
            kind,
            rules,
        ).sell_only,
{
    reveal_strlit("distress-avoid");
    reveal_strlit("tactical-derisk");
    reveal_strlit("follow-disclosures");
    assert("follow-disclosures"@.len() != "distress-avoid"@.len());
    assert("follow-disclosures"@.len() != "tactical-derisk"@.len());
}

} // verus!
