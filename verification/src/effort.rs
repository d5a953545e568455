use vstd::prelude::*;

verus! {

/// A reasoning-effort tier a model can be asked to operate at.
#[derive(Clone, Copy, PartialEq, Eq, Structural, Debug)]
pub enum EffortLevel {
    Minimal,
    Low,
    Medium,
    High,
}

/// The human-readable, capitalized name of an effort level.
pub open spec fn effort_name(e: EffortLevel) -> Seq<char> {
    match e {
        EffortLevel::Minimal => "Minimal"@,
        EffortLevel::Low => "Low"@,
        EffortLevel::Medium => "Medium"@,
        EffortLevel::High => "High"@,
    }
}

/// The capitalized display name of an effort level.
pub fn effort_name_str(e: EffortLevel) -> (r: &'static str)
    ensures
        r@ == effort_name(e),
{
    match e {
        EffortLevel::Minimal => "Minimal",
        EffortLevel::Low => "Low",
        EffortLevel::Medium => "Medium",
        EffortLevel::High => "High",
    }
}

/// Equality on optional effort levels ("none" means the model's built-in
/// default).
pub fn effort_opt_eq(a: Option<EffortLevel>, b: Option<EffortLevel>) -> (r: bool)
    ensures
        r == (a == b),
{
    match (a, b) {
        (Option::None, Option::None) => true,
        (Option::Some(x), Option::Some(y)) => x == y,
        _ => false,
    }
}

} // verus!
