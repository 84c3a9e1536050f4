//! The discrete vocabulary of the thesis engine: distress zones and verdicts.
use vstd::prelude::*;

verus! {

/// Distress zone of an Altman Z'' score.
#[derive(Clone, Copy, Debug, PartialEq, Eq, Structural)]
pub enum Zone {
    Safe,
    Grey,
    Distress,
    Unknown,
}

/// The verdict of a thesis.
#[derive(Clone, Copy, Debug, PartialEq, Eq, Structural)]
pub enum Verdict {
    Avoid,
    Caution,
    Neutral,
    Opportunity,
}

} // verus!
