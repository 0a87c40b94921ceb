//! The decrypt transaction: authorization, phase gating, idempotency
//! short-circuits, and the status transition of a single ballot.
//!
//! Decoding the ciphertext itself is the cryptosystem's work and happens
//! outside this crate; the host hands the decoded selection identifiers in,
//! and everything this module decides is a function of the committed state
//! and those plain inputs.

use vstd::prelude::*;

use crate::choices::{all_options_known, distinct_count};
use crate::enums::{BallotStatus, InvalidReason};
use crate::errors::Error;
use crate::hex_codec::{encode_hex, hex_of};
use crate::schema::{
    ballot_at, ballot_pos, ballot_wf, decrypted_ballot, district_config, entry_at, has_ballot,
    has_district, has_voting, indices_unique, schema_wf, voting_pos, votings_unique, clone_bytes,
    clone_options, EntryModel, ServiceConfig, ServiceSchema,
};
use crate::state_gate::{check_decrypt_allowed, decrypt_allowed};

verus! {

/// The decrypt request: which election, which ballot, and an auxiliary
/// seed that the host's decode step accepts for forward compatibility.
#[derive(Clone, Debug)]
pub struct TxDecryptBallot {
    pub voting_id: String,
    pub ballot_index: u32,
    pub seed: u64,
}

/// The byte sequence behind an optional binary argument.
pub open spec fn opt_view(o: Option<&Vec<u8>>) -> Option<Seq<u8>> {
    match o {
        Some(v) => Some(v@),
        None => None,
    }
}

/// The result the decrypt transaction reports, as a function of the
/// committed state and the request, checked in this order: caller identity,
/// operator authorization, election existence, phase, ballot existence, the
/// idempotent short-circuits (which report success without writing),
/// decryption-key publication, and transaction-hash presence.
pub open spec fn decrypt_tx_outcome(
    es: Seq<EntryModel>,
    keys: Seq<Seq<char>>,
    author: Option<Seq<u8>>,
    tx_hash: Option<Seq<u8>>,
    voting_id: Seq<char>,
    ballot_index: u32,
) -> Result<(), Error> {
    match author {
        None => Err(Error::WrongTxInitiator),
        Some(a) => if !keys.contains(hex_of(a)) {
            Err(Error::AuthorNotAuthorized)
        } else if !has_voting(es, voting_id) {
            Err(Error::VotingDoesNotExist)
        } else {
            let e = entry_at(es, voting_id);
            if !decrypt_allowed(e.voting.state) {
                Err(Error::ForbiddenForThisVotingState)
            } else if !has_ballot(e.ballots, ballot_index) {
                Err(Error::BallotDoesNotExist)
            } else {
                let b = ballot_at(e.ballots, ballot_index);
                if b.status == BallotStatus::Invalid(InvalidReason::WrongDistrict) {
                    Ok(())
                } else if b.decrypted_choices is Some || b.status != BallotStatus::Unknown {
                    Ok(())
                } else if e.voting.crypto_system_settings.private_key is None {
                    Err(Error::DecryptionKeyIsNotPublished)
                } else if tx_hash is None {
                    Err(Error::WrongTxInitiator)
                } else {
                    Ok(())
                }
            }
        },
    }
}

/// Whether the decrypt transaction reaches the storage write: every check
/// passes and no idempotent short-circuit fires.
pub open spec fn decrypt_tx_writes(
    es: Seq<EntryModel>,
    keys: Seq<Seq<char>>,
    author: Option<Seq<u8>>,
    tx_hash: Option<Seq<u8>>,
    voting_id: Seq<char>,
    ballot_index: u32,
) -> bool {
    &&& author matches Some(a) && keys.contains(hex_of(a))
    &&& has_voting(es, voting_id)
    &&& decrypt_allowed(entry_at(es, voting_id).voting.state)
    &&& has_ballot(entry_at(es, voting_id).ballots, ballot_index)
    &&& ballot_at(entry_at(es, voting_id).ballots, ballot_index).status == BallotStatus::Unknown
    &&& ballot_at(entry_at(es, voting_id).ballots, ballot_index).decrypted_choices is None
    &&& entry_at(es, voting_id).voting.crypto_system_settings.private_key is Some
    &&& tx_hash is Some
}

/// The committed state after the decrypt transaction: unchanged unless the
/// write path is reached, in which case exactly the addressed ballot is
/// replaced by the outcome of the decryption algorithm run against its
/// district's configuration.
pub open spec fn decrypt_tx_post(
    es: Seq<EntryModel>,
    keys: Seq<Seq<char>>,
    author: Option<Seq<u8>>,
    tx_hash: Option<Seq<u8>>,
    decoded: Seq<u32>,
    voting_id: Seq<char>,
    ballot_index: u32,
) -> Seq<EntryModel> {
    if decrypt_tx_writes(es, keys, author, tx_hash, voting_id, ballot_index) {
        let vp = voting_pos(es, voting_id);
        let e = es[vp];
        let b = ballot_at(e.ballots, ballot_index);
        let cfg = district_config(e.voting.ballots_config, b.district_id);
        let nb = decrypted_ballot(
            b,
            decoded,
            cfg.options,
            cfg.min_choices,
            cfg.max_choices,
            tx_hash->0,
        );
        es.update(
            vp,
            EntryModel {
                voting: e.voting,
                ballots: e.ballots.update(ballot_pos(e.ballots, ballot_index), nb),
            },
        )
    } else {
        es
    }
}

impl TxDecryptBallot {
    /// Runs the decrypt transaction against the committed state. `author`
    /// and `tx_hash` come from the execution context (absent when the
    /// transaction carries no caller identity or hash), and `decoded` is
    /// the cryptosystem's decode of this ballot's ciphertext under the
    /// published private key. Reports exactly `decrypt_tx_outcome` and
    /// leaves the state at exactly `decrypt_tx_post`: every failure, and
    /// every idempotent success on an already-terminal ballot, changes
    /// nothing.
    pub fn execute(
        &self,
        schema: &mut ServiceSchema,
        config: &ServiceConfig,
        author: Option<&Vec<u8>>,
        tx_hash: Option<&Vec<u8>>,
        decoded: &Vec<u32>,
    ) -> (r: Result<(), Error>)
        requires
            old(schema).wf(),
        ensures
            final(schema).wf(),
            r == decrypt_tx_outcome(
                old(schema)@,
                config@,
                opt_view(author),
                opt_view(tx_hash),
                self.voting_id@,
                self.ballot_index,
            ),
            final(schema)@ == decrypt_tx_post(
                old(schema)@,
                config@,
                opt_view(author),
                opt_view(tx_hash),
                decoded@,
                self.voting_id@,
                self.ballot_index,
            ),
    {
        let author_pk = match author {
            Some(a) => a,
            None => {
                return Err(Error::WrongTxInitiator);
            },
        };
        let author_hex = encode_hex(author_pk);
        if !config.is_api_key(&author_hex) {
            return Err(Error::AuthorNotAuthorized);
        }
        let ep = match schema.find_entry(&self.voting_id) {
            Some(p) => p,
            None => {
                return Err(Error::VotingDoesNotExist);
            },
        };
        let state = schema.entries[ep].voting.get_state();
        if !check_decrypt_allowed(state) {
            return Err(Error::ForbiddenForThisVotingState);
        }
        let ballot = match schema.entries[ep].ballots.get_ballot_by_index(self.ballot_index) {
            Some(b) => b,
            None => {
                return Err(Error::BallotDoesNotExist);
            },
        };
        if ballot.status == BallotStatus::Invalid(InvalidReason::WrongDistrict) {
            return Ok(());
        }
        if ballot.decrypted_choices.is_some() || ballot.status != BallotStatus::Unknown {
            return Ok(());
        }
        let district_id = ballot.district_id;
        if schema.entries[ep].voting.crypto_system_settings.private_key.is_none() {
            return Err(Error::DecryptionKeyIsNotPublished);
        }
        let hash = match tx_hash {
            Some(h) => h,
            None => {
                return Err(Error::WrongTxInitiator);
            },
        };
        let cfg = match schema.entries[ep].voting.get_ballot_config(district_id) {
            Some(c) => c,
            None => {
                proof {
                    assert(false);
                }
                return Err(Error::BallotCannotBeDecrypted);
            },
        };
        let options = clone_options(&cfg.options);
        let min_choices = cfg.min_choices;
        let max_choices = cfg.max_choices;
        let ghost old_es = old(schema)@;
        let entry = &mut schema.entries[ep];
        let res = entry.ballots.decrypt_ballot(
            self.ballot_index,
            clone_options(decoded),
            clone_bytes(hash),
            &options,
            min_choices,
            max_choices,
        );
        match res {
            Ok(()) => {
                proof {
                    let vp = ep as int;
                    let e = old_es[vp];
                    let bp = ballot_pos(e.ballots, self.ballot_index);
                    let ob = ballot_at(e.ballots, self.ballot_index);
                    let cfg_m = district_config(e.voting.ballots_config, ob.district_id);
                    let nb = decrypted_ballot(ob, decoded@, cfg_m.options, cfg_m.min_choices,
                        cfg_m.max_choices, opt_view(tx_hash)->0);
                    assert(schema@.len() == old_es.len());
                    assert(forall|i: int|
                        0 <= i < old_es.len() && i != vp ==> #[trigger] schema@[i] == old_es[i]);
                    assert(schema@[vp].voting == e.voting);
                    assert(schema@[vp].ballots == e.ballots.update(bp, nb));
                    assert(schema@ =~= old_es.update(
                        vp,
                        EntryModel { voting: e.voting, ballots: e.ballots.update(bp, nb) },
                    ));
                    lemma_execute_write_post(
                        old_es,
                        schema@,
                        config@,
                        opt_view(author),
                        opt_view(tx_hash),
                        decoded@,
                        self.voting_id@,
                        self.ballot_index,
                        vp,
                    );
                }
                Ok(())
            },
            Err(_) => {
                proof {
                    assert(false);
                }
                Err(Error::BallotCannotBeDecrypted)
            },
        }
    }
}

/// After the storage write of a decrypt transaction whose checks all
/// passed, the new state is exactly `decrypt_tx_post` and is well-formed.
proof fn lemma_execute_write_post(
    old_es: Seq<EntryModel>,
    new_es: Seq<EntryModel>,
    keys: Seq<Seq<char>>,
    author: Option<Seq<u8>>,
    tx_hash: Option<Seq<u8>>,
    decoded: Seq<u32>,
    voting_id: Seq<char>,
    ballot_index: u32,
    vp: int,
)
    requires
        schema_wf(old_es),
        decrypt_tx_writes(old_es, keys, author, tx_hash, voting_id, ballot_index),
        vp == voting_pos(old_es, voting_id),
        new_es == old_es.update(
            vp,
            EntryModel {
                voting: old_es[vp].voting,
                ballots: old_es[vp].ballots.update(
                    ballot_pos(old_es[vp].ballots, ballot_index),
                    decrypted_ballot(
                        ballot_at(old_es[vp].ballots, ballot_index),
                        decoded,
                        district_config(
                            old_es[vp].voting.ballots_config,
                            ballot_at(old_es[vp].ballots, ballot_index).district_id,
                        ).options,
                        district_config(
                            old_es[vp].voting.ballots_config,
                            ballot_at(old_es[vp].ballots, ballot_index).district_id,
                        ).min_choices,
                        district_config(
                            old_es[vp].voting.ballots_config,
                            ballot_at(old_es[vp].ballots, ballot_index).district_id,
                        ).max_choices,
                        tx_hash->0,
                    ),
                ),
            },
        ),
    ensures
        new_es == decrypt_tx_post(old_es, keys, author, tx_hash, decoded, voting_id, ballot_index),
        schema_wf(new_es),
{
    let e = old_es[vp];
    let bp = ballot_pos(e.ballots, ballot_index);
    let ob = ballot_at(e.ballots, ballot_index);
    let cfg = district_config(e.voting.ballots_config, ob.district_id);
    let nb = decrypted_ballot(ob, decoded, cfg.options, cfg.min_choices, cfg.max_choices,
        tx_hash->0);
    assert(0 <= vp < old_es.len() && e.voting.id == voting_id);
    assert(0 <= bp < e.ballots.len() && e.ballots[bp].index == ballot_index);
    assert(new_es =~= decrypt_tx_post(old_es, keys, author, tx_hash, decoded, voting_id,
        ballot_index));
    assert(e.wf());
    let ne = new_es[vp];
    assert(nb.index == ob.index);
    assert(crate::schema::indices_unique(ne.ballots)) by {
        assert(forall|i: int| 0 <= i < ne.ballots.len()
            ==> #[trigger] ne.ballots[i].index == e.ballots[i].index);
    }
    assert(crate::schema::ballot_wf(nb, ne.voting.ballots_config)) by {
        assert(crate::schema::ballot_wf(ob, e.voting.ballots_config));
        assert(crate::schema::has_district(e.voting.ballots_config, ob.district_id));
    }
    assert(forall|i: int| 0 <= i < ne.ballots.len()
        ==> crate::schema::ballot_wf(#[trigger] ne.ballots[i], ne.voting.ballots_config));
    assert(ne.wf());
    assert(forall|i: int| 0 <= i < new_es.len() ==> (#[trigger] new_es[i]).wf());
    assert(crate::schema::votings_unique(new_es)) by {
        assert(forall|i: int| 0 <= i < new_es.len()
            ==> #[trigger] new_es[i].voting.id == old_es[i].voting.id);
    }
}

/// Law: when the decrypt transaction reaches its storage write, exactly the
/// addressed ballot is replaced — by the outcome of the decryption
/// algorithm against its district's configuration — and every other ballot
/// and every other election is untouched.
pub proof fn lemma_decrypt_write_replaces_ballot(
    es: Seq<EntryModel>,
    keys: Seq<Seq<char>>,
    author: Option<Seq<u8>>,
    tx_hash: Option<Seq<u8>>,
    decoded: Seq<u32>,
    voting_id: Seq<char>,
    ballot_index: u32,
)
    requires
        schema_wf(es),
        decrypt_tx_writes(es, keys, author, tx_hash, voting_id, ballot_index),
    ensures
        ({
            let post = decrypt_tx_post(es, keys, author, tx_hash, decoded, voting_id, ballot_index);
            let e = entry_at(es, voting_id);
            let b = ballot_at(e.ballots, ballot_index);
            let cfg = district_config(e.voting.ballots_config, b.district_id);
            &&& has_voting(post, voting_id)
            &&& voting_pos(post, voting_id) == voting_pos(es, voting_id)
            &&& entry_at(post, voting_id).voting == e.voting
            &&& has_ballot(entry_at(post, voting_id).ballots, ballot_index)
            &&& ballot_pos(entry_at(post, voting_id).ballots, ballot_index) == ballot_pos(
                e.ballots,
                ballot_index,
            )
            &&& ballot_at(entry_at(post, voting_id).ballots, ballot_index) == decrypted_ballot(
                b,
                decoded,
                cfg.options,
                cfg.min_choices,
                cfg.max_choices,
                tx_hash->0,
            )
            &&& forall|i: int|
                0 <= i < es.len() && i != voting_pos(es, voting_id) ==> post[i] == es[i]
            &&& forall|j: int|
                0 <= j < e.ballots.len() && j != ballot_pos(e.ballots, ballot_index)
                    ==> entry_at(post, voting_id).ballots[j] == e.ballots[j]
        }),
{
    let post = decrypt_tx_post(es, keys, author, tx_hash, decoded, voting_id, ballot_index);
    let vp = voting_pos(es, voting_id);
    let e = es[vp];
    assert(0 <= vp < es.len() && e.voting.id == voting_id);
    assert(e.wf());
    let bp = ballot_pos(e.ballots, ballot_index);
    assert(0 <= bp < e.ballots.len() && e.ballots[bp].index == ballot_index);
    assert(post[vp].voting.id == voting_id);
    assert(has_voting(post, voting_id));
    assert(voting_pos(post, voting_id) == vp) by {
        let p = voting_pos(post, voting_id);
        assert(0 <= p < post.len() && post[p].voting.id == voting_id);
        if p != vp {
            assert(votings_unique(es));
            assert(post[p] == es[p]);
            assert(es[p].voting.id != es[vp].voting.id);
        }
    }
    let nballots = entry_at(post, voting_id).ballots;
    assert(nballots[bp].index == ballot_index);
    assert(has_ballot(nballots, ballot_index));
    assert(ballot_pos(nballots, ballot_index) == bp) by {
        let q = ballot_pos(nballots, ballot_index);
        assert(0 <= q < nballots.len() && nballots[q].index == ballot_index);
        if q != bp {
            assert(indices_unique(e.ballots));
            assert(nballots[q] == e.ballots[q]);
            assert(e.ballots[q].index != e.ballots[bp].index);
        }
    }
}

/// Law: invoking the decrypt transaction on a ballot whose status is
/// already terminal succeeds as a no-op — the committed state, the stored
/// ballot included, is identical before and after.
pub proof fn lemma_decrypt_replay_is_noop(
    es: Seq<EntryModel>,
    keys: Seq<Seq<char>>,
    author: Option<Seq<u8>>,
    tx_hash: Option<Seq<u8>>,
    decoded: Seq<u32>,
    voting_id: Seq<char>,
    ballot_index: u32,
)
    requires
        author matches Some(a) && keys.contains(hex_of(a)),
        has_voting(es, voting_id),
        decrypt_allowed(entry_at(es, voting_id).voting.state),
        has_ballot(entry_at(es, voting_id).ballots, ballot_index),
        ballot_at(entry_at(es, voting_id).ballots, ballot_index).status != BallotStatus::Unknown,
    ensures
        decrypt_tx_outcome(es, keys, author, tx_hash, voting_id, ballot_index) == Ok::<(), Error>(
            (),
        ),
        decrypt_tx_post(es, keys, author, tx_hash, decoded, voting_id, ballot_index) == es,
{
}

/// Law: while the election phase is not Stopped, the decrypt transaction of
/// an authorized operator is rejected with ForbiddenForThisVotingState and
/// performs zero writes.
pub proof fn lemma_decrypt_gate_blocks(
    es: Seq<EntryModel>,
    keys: Seq<Seq<char>>,
    author: Option<Seq<u8>>,
    tx_hash: Option<Seq<u8>>,
    decoded: Seq<u32>,
    voting_id: Seq<char>,
    ballot_index: u32,
)
    requires
        author matches Some(a) && keys.contains(hex_of(a)),
        has_voting(es, voting_id),
        !decrypt_allowed(entry_at(es, voting_id).voting.state),
    ensures
        decrypt_tx_outcome(es, keys, author, tx_hash, voting_id, ballot_index) == Err::<(), Error>(
            Error::ForbiddenForThisVotingState,
        ),
        decrypt_tx_post(es, keys, author, tx_hash, decoded, voting_id, ballot_index) == es,
{
}

/// Law: in a well-formed state, a ballot whose district has no matching
/// configuration is permanently Invalid(WrongDistrict), carries neither
/// decrypted choices nor a decrypt transaction hash, and the decrypt
/// transaction never writes to the state that holds it.
pub proof fn lemma_wrong_district_is_permanent(
    es: Seq<EntryModel>,
    keys: Seq<Seq<char>>,
    author: Option<Seq<u8>>,
    tx_hash: Option<Seq<u8>>,
    decoded: Seq<u32>,
    voting_id: Seq<char>,
    ballot_index: u32,
)
    requires
        schema_wf(es),
        has_voting(es, voting_id),
        has_ballot(entry_at(es, voting_id).ballots, ballot_index),
        !has_district(
            entry_at(es, voting_id).voting.ballots_config,
            ballot_at(entry_at(es, voting_id).ballots, ballot_index).district_id,
        ),
    ensures
        ballot_at(entry_at(es, voting_id).ballots, ballot_index).status == BallotStatus::Invalid(
            InvalidReason::WrongDistrict,
        ),
        ballot_at(entry_at(es, voting_id).ballots, ballot_index).decrypted_choices is None,
        ballot_at(entry_at(es, voting_id).ballots, ballot_index).decrypt_tx_hash is None,
        decrypt_tx_post(es, keys, author, tx_hash, decoded, voting_id, ballot_index) == es,
{
    let vp = voting_pos(es, voting_id);
    let e = entry_at(es, voting_id);
    assert(0 <= vp < es.len() && es[vp].voting.id == voting_id);
    assert(e.wf());
    let bp = ballot_pos(e.ballots, ballot_index);
    assert(0 <= bp < e.ballots.len() && e.ballots[bp].index == ballot_index);
    assert(ballot_wf(e.ballots[bp], e.voting.ballots_config));
}

/// Law: when the decrypt transaction reaches its storage write and the
/// decoded selections include an identifier outside the district's
/// configured option set, the ballot ends Invalid(UnknownOption) and its
/// decrypted choice set stays unset.
pub proof fn lemma_unknown_option_rejected(
    es: Seq<EntryModel>,
    keys: Seq<Seq<char>>,
    author: Option<Seq<u8>>,
    tx_hash: Option<Seq<u8>>,
    decoded: Seq<u32>,
    voting_id: Seq<char>,
    ballot_index: u32,
)
    requires
        schema_wf(es),
        decrypt_tx_writes(es, keys, author, tx_hash, voting_id, ballot_index),
        !all_options_known(
            decoded,
            district_config(
                entry_at(es, voting_id).voting.ballots_config,
                ballot_at(entry_at(es, voting_id).ballots, ballot_index).district_id,
            ).options,
        ),
    ensures
        ({
            let post = decrypt_tx_post(es, keys, author, tx_hash, decoded, voting_id, ballot_index);
            let nb = ballot_at(entry_at(post, voting_id).ballots, ballot_index);
            &&& nb.status == BallotStatus::Invalid(InvalidReason::UnknownOption)
            &&& nb.decrypted_choices is None
        }),
{
    lemma_decrypt_write_replaces_ballot(es, keys, author, tx_hash, decoded, voting_id,
        ballot_index);
}

/// Law: when the decrypt transaction reaches its storage write, every
/// decoded selection is a configured option, and the count of distinct
/// selections falls outside the district's bounds, the ballot ends
/// Invalid(OutOfRange) and its decrypted choice set stays unset.
pub proof fn lemma_out_of_range_rejected(
    es: Seq<EntryModel>,
    keys: Seq<Seq<char>>,
    author: Option<Seq<u8>>,
    tx_hash: Option<Seq<u8>>,
    decoded: Seq<u32>,
    voting_id: Seq<char>,
    ballot_index: u32,
)
    requires
        schema_wf(es),
        decrypt_tx_writes(es, keys, author, tx_hash, voting_id, ballot_index),
        ({
            let cfg = district_config(
                entry_at(es, voting_id).voting.ballots_config,
                ballot_at(entry_at(es, voting_id).ballots, ballot_index).district_id,
            );
            &&& all_options_known(decoded, cfg.options)
            &&& (distinct_count(decoded) < cfg.min_choices || distinct_count(decoded)
                > cfg.max_choices)
        }),
    ensures
        ({
            let post = decrypt_tx_post(es, keys, author, tx_hash, decoded, voting_id, ballot_index);
            let nb = ballot_at(entry_at(post, voting_id).ballots, ballot_index);
            &&& nb.status == BallotStatus::Invalid(InvalidReason::OutOfRange)
            &&& nb.decrypted_choices is None
        }),
{
    lemma_decrypt_write_replaces_ballot(es, keys, author, tx_hash, decoded, voting_id,
        ballot_index);
}

} // verus!

