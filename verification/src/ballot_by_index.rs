//! The phase-gated read path: looking a ballot up by election identifier
//! and ballot index and projecting it into a display-safe view whose binary
//! fields are rendered as lowercase hexadecimal text.

use vstd::prelude::*;

use crate::enums::BallotStatus;
use crate::errors::Error;
use crate::hex_codec::{encode_hex, hex_of};
use crate::schema::{
    ballot_at, clone_bytes, clone_options, entry_at, has_ballot, has_voting, Ballot, BallotModel,
    EncryptedChoice, ServiceSchema,
};
use crate::state_gate::{check_read_allowed, read_allowed};

verus! {

/// A read request: which election and which ballot.
#[derive(Clone, Debug)]
pub struct BallotByIndexQuery {
    pub voting_id: String,
    pub ballot_index: u32,
}

/// Display-safe rendering of an encrypted choice: every binary field as
/// lowercase hexadecimal text.
#[derive(Clone, Debug)]
pub struct EncryptedChoiceView {
    pub message: String,
    pub nonce: String,
    pub public_key: String,
}

impl EncryptedChoiceView {
    /// Projects an encrypted choice into its display view.
    pub fn from(enc_choice: &EncryptedChoice) -> (r: Self)
        ensures
            r.message@ == hex_of(enc_choice@.encrypted_message),
            r.nonce@ == hex_of(enc_choice@.nonce),
            r.public_key@ == hex_of(enc_choice@.public_key),
    {
        Self {
            message: encode_hex(&enc_choice.encrypted_message),
            nonce: encode_hex(&enc_choice.nonce),
            public_key: encode_hex(&enc_choice.public_key),
        }
    }
}

/// Display-safe rendering of a stored ballot.
#[derive(Clone, Debug)]
pub struct BallotByIndexView {
    pub index: u32,
    pub voter: Vec<u8>,
    pub district_id: u32,
    pub encrypted_choice: EncryptedChoiceView,
    pub decrypted_choices: Option<Vec<u32>>,
    pub store_tx_hash: Vec<u8>,
    pub decrypt_tx_hash: Option<Vec<u8>>,
    pub status: BallotStatus,
}

/// What it means for a display view to render a stored ballot: the plain
/// fields pass through, the encrypted choice's binary fields are rendered
/// as lowercase hexadecimal text, and the optional fields are present
/// exactly when the ballot carries them.
pub open spec fn projects(r: BallotByIndexView, b: BallotModel) -> bool {
    &&& r.index == b.index
    &&& r.voter@ == b.voter
    &&& r.district_id == b.district_id
    &&& r.encrypted_choice.message@ == hex_of(b.encrypted_choice.encrypted_message)
    &&& r.encrypted_choice.nonce@ == hex_of(b.encrypted_choice.nonce)
    &&& r.encrypted_choice.public_key@ == hex_of(b.encrypted_choice.public_key)
    &&& match (r.decrypted_choices, b.decrypted_choices) {
        (Some(v), Some(s)) => v@ == s,
        (None, None) => true,
        _ => false,
    }
    &&& r.store_tx_hash@ == b.store_tx_hash
    &&& match (r.decrypt_tx_hash, b.decrypt_tx_hash) {
        (Some(v), Some(s)) => v@ == s,
        (None, None) => true,
        _ => false,
    }
    &&& r.status == b.status
}

impl BallotByIndexView {
    /// Projects a stored ballot into its display view.
    pub fn from(ballot: &Ballot) -> (r: Self)
        ensures
            projects(r, ballot@),
    {
        Self {
            index: ballot.index,
            voter: clone_bytes(&ballot.voter),
            district_id: ballot.district_id,
            encrypted_choice: EncryptedChoiceView::from(&ballot.encrypted_choice),
            decrypted_choices: match &ballot.decrypted_choices {
                Some(v) => Some(clone_options(v)),
                None => None,
            },
            store_tx_hash: clone_bytes(&ballot.store_tx_hash),
            decrypt_tx_hash: match &ballot.decrypt_tx_hash {
                Some(v) => Some(clone_bytes(v)),
                None => None,
            },
            status: ballot.status,
        }
    }
}

/// Phase-gated read of one ballot: fails with VotingDoesNotExist when the
/// election is unknown, with ForbiddenForThisVotingState while the election
/// is still in Registration — whether or not the ballot exists — and with
/// BallotDoesNotExist when the index is absent; otherwise projects the
/// stored ballot. Pure: the committed state is only read.
pub fn get_ballot_by_index(schema: &ServiceSchema, query: &BallotByIndexQuery) -> (r: Result<
    BallotByIndexView,
    Error,
>)
    requires
        schema.wf(),
    ensures
        !has_voting(schema@, query.voting_id@) ==> r == Err::<BallotByIndexView, Error>(
            Error::VotingDoesNotExist,
        ),
        has_voting(schema@, query.voting_id@) && !read_allowed(
            entry_at(schema@, query.voting_id@).voting.state,
        ) ==> r == Err::<BallotByIndexView, Error>(Error::ForbiddenForThisVotingState),
        has_voting(schema@, query.voting_id@) && read_allowed(
            entry_at(schema@, query.voting_id@).voting.state,
        ) && !has_ballot(entry_at(schema@, query.voting_id@).ballots, query.ballot_index) ==> r
            == Err::<BallotByIndexView, Error>(Error::BallotDoesNotExist),
        has_voting(schema@, query.voting_id@) && read_allowed(
            entry_at(schema@, query.voting_id@).voting.state,
        ) && has_ballot(entry_at(schema@, query.voting_id@).ballots, query.ballot_index) ==> {
            &&& r is Ok
            &&& projects(
                r->Ok_0,
                ballot_at(entry_at(schema@, query.voting_id@).ballots, query.ballot_index),
            )
        },
{
    let ep = match schema.find_entry(&query.voting_id) {
        Some(p) => p,
        None => {
            return Err(Error::VotingDoesNotExist);
        },
    };
    let state = schema.entries[ep].voting.get_state();
    if !check_read_allowed(state) {
        return Err(Error::ForbiddenForThisVotingState);
    }
    match schema.entries[ep].ballots.get_ballot_by_index(query.ballot_index) {
        Some(ballot) => Ok(BallotByIndexView::from(ballot)),
        None => Err(Error::BallotDoesNotExist),
    }
}

} // verus!
