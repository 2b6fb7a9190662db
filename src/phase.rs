use vstd::prelude::*;

verus! {

/// Lifecycle phase of a bond.
#[derive(Clone, Copy, Debug, PartialEq, Eq, Structural)]
pub enum Phase {
    Subscription,
    Distribution,
    Coupon,
    Redemption,
}

/// The transition table: each phase may only move one step forward,
/// `Coupon` may repeat, and `Redemption` is terminal.
pub open spec fn transition_allowed(from: Phase, to: Phase) -> bool {
    match from {
        Phase::Subscription => to == Phase::Distribution,
        Phase::Distribution => to == Phase::Coupon,
        Phase::Coupon => to == Phase::Coupon || to == Phase::Redemption,
        Phase::Redemption => false,
    }
}

/// Rank of a phase in the lifecycle order.
pub open spec fn rank(p: Phase) -> nat {
    match p {
        Phase::Subscription => 0,
        Phase::Distribution => 1,
        Phase::Coupon => 2,
        Phase::Redemption => 3,
    }
}

/// Whether the lifecycle may move from `from` to `to`.
pub fn can_transition(from: Phase, to: Phase) -> (r: bool)
    ensures
        r == transition_allowed(from, to),
{
    match from {
        Phase::Subscription => to == Phase::Distribution,
        Phase::Distribution => to == Phase::Coupon,
        Phase::Coupon => to == Phase::Coupon || to == Phase::Redemption,
        Phase::Redemption => false,
    }
}

/// A phase never regresses: every allowed transition keeps or raises the
/// rank, and only `Coupon` may stay where it is.
pub proof fn lemma_phase_never_regresses(from: Phase, to: Phase)
    requires
        transition_allowed(from, to),
    ensures
        rank(from) <= rank(to),
        from == to ==> from == Phase::Coupon,
        from != Phase::Redemption,
{
}

} // verus!
