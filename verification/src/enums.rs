//! Election lifecycle phases, ballot statuses, and the reasons a ballot can
//! be found invalid.

use vstd::prelude::*;

verus! {

/// Lifecycle phase of an election. Phases only ever advance
/// Registration -> Open -> Stopped; the transitions themselves are driven
/// by the host and are outside this crate.
#[derive(Clone, Copy, Debug, PartialEq, Eq, Structural)]
pub enum VotingState {
    Registration,
    Open,
    Stopped,
}

/// Why a ballot was rejected during decryption (or at cast time, for a
/// ballot whose district has no configuration).
#[derive(Clone, Copy, Debug, PartialEq, Eq, Structural)]
pub enum InvalidReason {
    WrongDistrict,
    UnknownOption,
    OutOfRange,
    DuplicateOption,
}

/// Status of a ballot. A ballot starts Unknown and moves at most once to a
/// terminal variant (Valid or Invalid); once terminal it never changes.
#[derive(Clone, Copy, Debug, PartialEq, Eq, Structural)]
pub enum BallotStatus {
    Unknown,
    Invalid(InvalidReason),
    Valid,
}

} // verus!
