//! The shared phase predicate gating both paths: queries are allowed in any
//! phase past Registration, while the decrypt transaction requires the
//! election to be Stopped exactly.

use vstd::prelude::*;

use crate::enums::VotingState;

verus! {

/// Whether the query path may read ballots in this phase.
pub open spec fn read_allowed(state: VotingState) -> bool {
    state != VotingState::Registration
}

/// Whether the decrypt transaction may run in this phase.
pub open spec fn decrypt_allowed(state: VotingState) -> bool {
    state == VotingState::Stopped
}

/// Phase gate of the query path.
pub fn check_read_allowed(state: VotingState) -> (r: bool)
    ensures
        r == read_allowed(state),
{
    state != VotingState::Registration
}

/// Phase gate of the decrypt transaction.
pub fn check_decrypt_allowed(state: VotingState) -> (r: bool)
    ensures
        r == decrypt_allowed(state),
{
    state == VotingState::Stopped
}

} // verus!
