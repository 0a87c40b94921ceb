//! The data model of the voting sub-ledger: elections, district ballot
//! configurations, ballots, and the per-election ballot storage with its
//! atomic decrypt-and-update.
//!
//! Every executable type has a mathematical model (its view), and the
//! well-formedness predicates tie the pieces together: ballot indices are
//! unique within an election, a decrypted choice set is present exactly on
//! Valid ballots, and a ballot whose district has no configuration is
//! permanently Invalid(WrongDistrict).

use vstd::prelude::*;

use crate::choices::{choice_outcome, validate_choices};
use crate::enums::{BallotStatus, InvalidReason, VotingState};
use crate::errors::DecryptError;

verus! {

/// Opaque ciphertext of a voter's selections, with its nonce and the
/// submitting voter's ephemeral public key. Produced client-side; this
/// crate never looks inside.
pub struct EncryptedChoice {
    pub encrypted_message: Vec<u8>,
    pub nonce: Vec<u8>,
    pub public_key: Vec<u8>,
}

/// Mathematical model of an encrypted choice.
pub struct EncryptedChoiceModel {
    pub encrypted_message: Seq<u8>,
    pub nonce: Seq<u8>,
    pub public_key: Seq<u8>,
}

impl View for EncryptedChoice {
    type V = EncryptedChoiceModel;

    open spec fn view(&self) -> EncryptedChoiceModel {
        EncryptedChoiceModel {
            encrypted_message: self.encrypted_message@,
            nonce: self.nonce@,
            public_key: self.public_key@,
        }
    }
}

/// A single cast ballot, identified within its election by `index`.
pub struct Ballot {
    pub index: u32,
    pub voter: Vec<u8>,
    pub district_id: u32,
    pub encrypted_choice: EncryptedChoice,
    pub decrypted_choices: Option<Vec<u32>>,
    pub store_tx_hash: Vec<u8>,
    pub decrypt_tx_hash: Option<Vec<u8>>,
    pub status: BallotStatus,
}

/// Mathematical model of a ballot.
pub struct BallotModel {
    pub index: u32,
    pub voter: Seq<u8>,
    pub district_id: u32,
    pub encrypted_choice: EncryptedChoiceModel,
    pub decrypted_choices: Option<Seq<u32>>,
    pub store_tx_hash: Seq<u8>,
    pub decrypt_tx_hash: Option<Seq<u8>>,
    pub status: BallotStatus,
}

impl View for Ballot {
    type V = BallotModel;

    open spec fn view(&self) -> BallotModel {
        BallotModel {
            index: self.index,
            voter: self.voter@,
            district_id: self.district_id,
            encrypted_choice: self.encrypted_choice@,
            decrypted_choices: match self.decrypted_choices {
                Some(v) => Some(v@),
                None => None,
            },
            store_tx_hash: self.store_tx_hash@,
            decrypt_tx_hash: match self.decrypt_tx_hash {
                Some(v) => Some(v@),
                None => None,
            },
            status: self.status,
        }
    }
}

/// A district's ballot policy: the configured option identifiers and the
/// allowed number of distinct selections.
pub struct BallotConfig {
    pub options: Vec<u32>,
    pub min_choices: u32,
    pub max_choices: u32,
}

/// Mathematical model of a district's ballot policy.
pub struct BallotConfigModel {
    pub options: Seq<u32>,
    pub min_choices: u32,
    pub max_choices: u32,
}

impl View for BallotConfig {
    type V = BallotConfigModel;

    open spec fn view(&self) -> BallotConfigModel {
        BallotConfigModel {
            options: self.options@,
            min_choices: self.min_choices,
            max_choices: self.max_choices,
        }
    }
}

/// One district's entry in an election's ballot configuration.
pub struct DistrictConfig {
    pub district_id: u32,
    pub config: BallotConfig,
}

/// Mathematical model of a district entry.
pub struct DistrictConfigModel {
    pub district_id: u32,
    pub config: BallotConfigModel,
}

impl View for DistrictConfig {
    type V = DistrictConfigModel;

    open spec fn view(&self) -> DistrictConfigModel {
        DistrictConfigModel { district_id: self.district_id, config: self.config@ }
    }
}

/// The election's cryptosystem settings: the public key voters encrypt
/// under, and the private key once it has been published after close.
pub struct CryptosystemSettings {
    pub public_key: Vec<u8>,
    pub private_key: Option<Vec<u8>>,
}

/// Mathematical model of the cryptosystem settings.
pub struct CryptosystemSettingsModel {
    pub public_key: Seq<u8>,
    pub private_key: Option<Seq<u8>>,
}

impl View for CryptosystemSettings {
    type V = CryptosystemSettingsModel;

    open spec fn view(&self) -> CryptosystemSettingsModel {
        CryptosystemSettingsModel {
            public_key: self.public_key@,
            private_key: match self.private_key {
                Some(v) => Some(v@),
                None => None,
            },
        }
    }
}

/// An election: identifier, lifecycle phase, per-district ballot
/// configuration, and cryptosystem settings.
pub struct Voting {
    pub id: String,
    pub state: VotingState,
    pub ballots_config: Vec<DistrictConfig>,
    pub crypto_system_settings: CryptosystemSettings,
}

/// Mathematical model of an election.
pub struct VotingModel {
    pub id: Seq<char>,
    pub state: VotingState,
    pub ballots_config: Seq<DistrictConfigModel>,
    pub crypto_system_settings: CryptosystemSettingsModel,
}

impl View for Voting {
    type V = VotingModel;

    open spec fn view(&self) -> VotingModel {
        VotingModel {
            id: self.id@,
            state: self.state,
            ballots_config: self.ballots_config@.map_values(|d: DistrictConfig| d@),
            crypto_system_settings: self.crypto_system_settings@,
        }
    }
}

/// Per-election collection of ballots, indexed by ballot index.
pub struct BallotsStorage {
    pub ballots: Vec<Ballot>,
}

impl View for BallotsStorage {
    type V = Seq<BallotModel>;

    open spec fn view(&self) -> Seq<BallotModel> {
        self.ballots@.map_values(|b: Ballot| b@)
    }
}

/// Byte-for-byte copy of a binary field.
pub fn clone_bytes(v: &Vec<u8>) -> (r: Vec<u8>)
    ensures
        r@ == v@,
{
    let r = v.clone();
    proof {
        assert(r@ =~= v@);
    }
    r
}

/// Element-for-element copy of a selection set.
pub fn clone_options(v: &Vec<u32>) -> (r: Vec<u32>)
    ensures
        r@ == v@,
{
    let r = v.clone();
    proof {
        assert(r@ =~= v@);
    }
    r
}

/// The per-district configuration lookup: whether some district entry
/// carries this identifier.
pub open spec fn has_district(ds: Seq<DistrictConfigModel>, district_id: u32) -> bool {
    exists|i: int| 0 <= i < ds.len() && ds[i].district_id == district_id
}

/// The configuration of the district with this identifier (meaningful when
/// districts are unique and the district is present).
pub open spec fn district_config(ds: Seq<DistrictConfigModel>, district_id: u32) -> BallotConfigModel {
    ds[choose|i: int| 0 <= i < ds.len() && ds[i].district_id == district_id].config
}

/// Whether some ballot carries this index.
pub open spec fn has_ballot(bs: Seq<BallotModel>, index: u32) -> bool {
    exists|i: int| 0 <= i < bs.len() && bs[i].index == index
}

/// The position of the ballot with this index (meaningful when indices are
/// unique and the ballot is present).
pub open spec fn ballot_pos(bs: Seq<BallotModel>, index: u32) -> int {
    choose|i: int| 0 <= i < bs.len() && bs[i].index == index
}

/// The ballot with this index.
pub open spec fn ballot_at(bs: Seq<BallotModel>, index: u32) -> BallotModel {
    bs[ballot_pos(bs, index)]
}

/// District identifiers occur at most once in a configuration.
pub open spec fn districts_unique(ds: Seq<DistrictConfigModel>) -> bool {
    forall|i: int, j: int|
        0 <= i < ds.len() && 0 <= j < ds.len() && i != j
            ==> ds[i].district_id != ds[j].district_id
}

/// Ballot indices occur at most once in an election's storage.
pub open spec fn indices_unique(bs: Seq<BallotModel>) -> bool {
    forall|i: int, j: int|
        0 <= i < bs.len() && 0 <= j < bs.len() && i != j ==> bs[i].index != bs[j].index
}

/// The lifecycle invariants of a single ballot with respect to its
/// election's district configuration: a decrypted choice set is present
/// exactly on Valid ballots, and a ballot whose district has no
/// configuration is permanently Invalid(WrongDistrict) and never carries a
/// decrypt transaction hash.
pub open spec fn ballot_wf(b: BallotModel, ds: Seq<DistrictConfigModel>) -> bool {
    &&& (b.decrypted_choices is Some <==> b.status is Valid)
    &&& (!has_district(ds, b.district_id) ==> {
        &&& b.status == BallotStatus::Invalid(InvalidReason::WrongDistrict)
        &&& b.decrypt_tx_hash is None
    })
}

impl BallotsStorage {
    /// Ballot indices are unique.
    pub open spec fn wf(&self) -> bool {
        indices_unique(self@)
    }

    /// Position of the ballot carrying `ballot_index`, if any.
    fn find_ballot(&self, ballot_index: u32) -> (r: Option<usize>)
        requires
            self.wf(),
        ensures
            r is Some <==> has_ballot(self@, ballot_index),
            r matches Some(p) ==> {
                &&& p < self@.len()
                &&& self@[p as int].index == ballot_index
                &&& p == ballot_pos(self@, ballot_index)
            },
    {
        let mut i: usize = 0;
        while i < self.ballots.len()
            invariant
                self.wf(),
                i <= self@.len(),
                self@.len() == self.ballots@.len(),
                forall|j: int| 0 <= j < i ==> self@[j].index != ballot_index,
                forall|j: int| 0 <= j < self@.len() ==> self@[j] == self.ballots@[j]@,
            decreases self@.len() - i,
        {
            if self.ballots[i].index == ballot_index {
                proof {
                    assert(self@[i as int].index == ballot_index);
                    let p = ballot_pos(self@, ballot_index);
                    assert(0 <= p < self@.len() && self@[p].index == ballot_index);
                    assert(p == i) by {
                        if p != i {
                            assert(indices_unique(self@));
                            assert(self@[p].index != self@[i as int].index);
                        }
                    }
                }
                return Some(i);
            }
            i += 1;
        }
        None
    }

    /// Pure lookup of the ballot carrying `ballot_index`.
    pub fn get_ballot_by_index(&self, ballot_index: u32) -> (r: Option<&Ballot>)
        requires
            self.wf(),
        ensures
            r is Some <==> has_ballot(self@, ballot_index),
            r matches Some(b) ==> b@ == ballot_at(self@, ballot_index),
    {
        match self.find_ballot(ballot_index) {
            Some(p) => Some(&self.ballots[p]),
            None => None,
        }
    }
}

impl Voting {
    /// The election's current lifecycle phase.
    pub fn get_state(&self) -> (r: VotingState)
        ensures
            r == self@.state,
    {
        self.state
    }

    /// The ballot policy of the district with this identifier, if one is
    /// configured.
    pub fn get_ballot_config(&self, district_id: u32) -> (r: Option<&BallotConfig>)
        requires
            districts_unique(self@.ballots_config),
        ensures
            r is Some <==> has_district(self@.ballots_config, district_id),
            r matches Some(c) ==> c@ == district_config(self@.ballots_config, district_id),
    {
        let ghost ds = self@.ballots_config;
        let mut i: usize = 0;
        while i < self.ballots_config.len()
            invariant
                districts_unique(ds),
                ds == self@.ballots_config,
                ds.len() == self.ballots_config@.len(),
                i <= ds.len(),
                forall|j: int| 0 <= j < i ==> ds[j].district_id != district_id,
            decreases ds.len() - i,
        {
            if self.ballots_config[i].district_id == district_id {
                proof {
                    assert(ds[i as int].district_id == district_id);
                    let p = choose|p: int| 0 <= p < ds.len() && ds[p].district_id == district_id;
                    assert(p == i) by {
                        if p != i {
                            assert(districts_unique(ds));
                            assert(ds[p].district_id != ds[i as int].district_id);
                        }
                    }
                }
                return Some(&self.ballots_config[i].config);
            }
            i += 1;
        }
        None
    }

    /// The election's cryptosystem settings.
    pub fn get_crypto_system_settings(&self) -> (r: &CryptosystemSettings)
        ensures
            r@ == self@.crypto_system_settings,
    {
        &self.crypto_system_settings
    }
}

/// The configured set of authorized operator keys, each stored as the
/// lowercase hexadecimal text of the operator's public key.
pub struct ServiceConfig {
    pub api_keys: Vec<String>,
}

impl View for ServiceConfig {
    type V = Seq<Seq<char>>;

    open spec fn view(&self) -> Seq<Seq<char>> {
        self.api_keys@.map_values(|s: String| s@)
    }
}

impl ServiceConfig {
    /// Whether this key text is one of the configured operator keys.
    pub fn is_api_key(&self, key: &String) -> (r: bool)
        ensures
            r == self@.contains(key@),
    {
        let mut i: usize = 0;
        while i < self.api_keys.len()
            invariant
                i <= self@.len(),
                self@.len() == self.api_keys@.len(),
                forall|j: int| 0 <= j < i ==> self@[j] != key@,
            decreases self@.len() - i,
        {
            if self.api_keys[i] == *key {
                assert(self@[i as int] == key@);
                return true;
            }
            i += 1;
        }
        false
    }
}

/// One election together with its ballot storage, as the service's
/// committed state holds them side by side under the election identifier.
pub struct VotingEntry {
    pub voting: Voting,
    pub ballots: BallotsStorage,
}

/// Mathematical model of an election's entry in the service state.
pub struct EntryModel {
    pub voting: VotingModel,
    pub ballots: Seq<BallotModel>,
}

impl View for VotingEntry {
    type V = EntryModel;

    open spec fn view(&self) -> EntryModel {
        EntryModel { voting: self.voting@, ballots: self.ballots@ }
    }
}

impl EntryModel {
    /// Well-formedness of one election's state: district identifiers and
    /// ballot indices are unique, and every ballot obeys the lifecycle
    /// invariants with respect to the district configuration.
    pub open spec fn wf(self) -> bool {
        &&& districts_unique(self.voting.ballots_config)
        &&& indices_unique(self.ballots)
        &&& forall|i: int|
            0 <= i < self.ballots.len() ==> ballot_wf(
                #[trigger] self.ballots[i],
                self.voting.ballots_config,
            )
    }
}

/// The committed state of the whole service: every election's entry.
pub struct ServiceSchema {
    pub entries: Vec<VotingEntry>,
}

impl View for ServiceSchema {
    type V = Seq<EntryModel>;

    open spec fn view(&self) -> Seq<EntryModel> {
        self.entries@.map_values(|e: VotingEntry| e@)
    }
}

/// Whether some election carries this identifier.
pub open spec fn has_voting(es: Seq<EntryModel>, id: Seq<char>) -> bool {
    exists|i: int| 0 <= i < es.len() && es[i].voting.id == id
}

/// The position of the election with this identifier (meaningful when
/// identifiers are unique and the election is present).
pub open spec fn voting_pos(es: Seq<EntryModel>, id: Seq<char>) -> int {
    choose|i: int| 0 <= i < es.len() && es[i].voting.id == id
}

/// The entry of the election with this identifier.
pub open spec fn entry_at(es: Seq<EntryModel>, id: Seq<char>) -> EntryModel {
    es[voting_pos(es, id)]
}

/// Election identifiers occur at most once.
pub open spec fn votings_unique(es: Seq<EntryModel>) -> bool {
    forall|i: int, j: int|
        0 <= i < es.len() && 0 <= j < es.len() && i != j ==> es[i].voting.id != es[j].voting.id
}

/// Well-formedness of the whole service state.
pub open spec fn schema_wf(es: Seq<EntryModel>) -> bool {
    &&& votings_unique(es)
    &&& forall|i: int| 0 <= i < es.len() ==> (#[trigger] es[i]).wf()
}

impl ServiceSchema {
    /// Well-formedness of the whole service state.
    pub open spec fn wf(&self) -> bool {
        schema_wf(self@)
    }

    /// Position of the election carrying `voting_id`, if any.
    pub fn find_entry(&self, voting_id: &String) -> (r: Option<usize>)
        requires
            self.wf(),
        ensures
            r is Some <==> has_voting(self@, voting_id@),
            r matches Some(p) ==> {
                &&& p < self@.len()
                &&& self@[p as int].voting.id == voting_id@
                &&& p == voting_pos(self@, voting_id@)
            },
    {
        let mut i: usize = 0;
        while i < self.entries.len()
            invariant
                self.wf(),
                i <= self@.len(),
                self@.len() == self.entries@.len(),
                forall|j: int| 0 <= j < i ==> self@[j].voting.id != voting_id@,
            decreases self@.len() - i,
        {
            if self.entries[i].voting.id == *voting_id {
                proof {
                    assert(self@[i as int].voting.id == voting_id@);
                    let p = voting_pos(self@, voting_id@);
                    assert(0 <= p < self@.len() && self@[p].voting.id == voting_id@);
                    assert(p == i) by {
                        if p != i {
                            assert(votings_unique(self@));
                            assert(self@[p].voting.id != self@[i as int].voting.id);
                        }
                    }
                }
                return Some(i);
            }
            i += 1;
        }
        None
    }
}

/// Law: in a well-formed state, a ballot's decrypted choice set is present
/// exactly when its status is Valid.
pub proof fn lemma_choices_iff_valid(es: Seq<EntryModel>, voting_id: Seq<char>, ballot_index: u32)
    requires
        schema_wf(es),
        has_voting(es, voting_id),
        has_ballot(entry_at(es, voting_id).ballots, ballot_index),
    ensures
        ballot_at(entry_at(es, voting_id).ballots, ballot_index).decrypted_choices is Some
            <==> ballot_at(entry_at(es, voting_id).ballots, ballot_index).status is Valid,
{
    let vp = voting_pos(es, voting_id);
    let e = entry_at(es, voting_id);
    assert(0 <= vp < es.len() && es[vp].voting.id == voting_id);
    assert(e.wf());
    let bp = ballot_pos(e.ballots, ballot_index);
    assert(0 <= bp < e.ballots.len() && e.ballots[bp].index == ballot_index);
    assert(ballot_wf(e.ballots[bp], e.voting.ballots_config));
}

/// The ballot that the storage-level decryption algorithm writes back for a
/// previously Unknown ballot whose ciphertext decoded to `decoded`: the
/// content checks assign the terminal status, the decrypt transaction hash
/// is recorded, and on Valid the selection set is stored.
pub open spec fn decrypted_ballot(
    b: BallotModel,
    decoded: Seq<u32>,
    allowed: Seq<u32>,
    min_choices: u32,
    max_choices: u32,
    tx_hash: Seq<u8>,
) -> BallotModel {
    let outcome = choice_outcome(decoded, allowed, min_choices, max_choices);
    BallotModel {
        status: outcome,
        decrypt_tx_hash: Some(tx_hash),
        decrypted_choices: if outcome is Valid {
            Some(decoded)
        } else {
            b.decrypted_choices
        },
        ..b
    }
}

impl BallotsStorage {
    /// Atomic read-modify-write over a single ballot: decodes have already
    /// happened outside; this runs the content checks of the decryption
    /// algorithm and writes the terminal status, the decrypt transaction
    /// hash, and (on Valid) the selection set. Fails with BallotAbsent when
    /// the index does not exist and with AlreadyDecrypted on a ballot whose
    /// status is already terminal; on failure nothing changes.
    pub fn decrypt_ballot(
        &mut self,
        ballot_index: u32,
        decoded: Vec<u32>,
        tx_hash: Vec<u8>,
        options: &Vec<u32>,
        min_choices: u32,
        max_choices: u32,
    ) -> (r: Result<(), DecryptError>)
        requires
            old(self).wf(),
        ensures
            final(self).wf(),
            !has_ballot(old(self)@, ballot_index) ==> {
                &&& r == Err::<(), DecryptError>(DecryptError::BallotAbsent)
                &&& final(self)@ == old(self)@
            },
            has_ballot(old(self)@, ballot_index)
                && ballot_at(old(self)@, ballot_index).status != BallotStatus::Unknown ==> {
                &&& r == Err::<(), DecryptError>(DecryptError::AlreadyDecrypted)
                &&& final(self)@ == old(self)@
            },
            has_ballot(old(self)@, ballot_index)
                && ballot_at(old(self)@, ballot_index).status == BallotStatus::Unknown ==> {
                &&& r == Ok::<(), DecryptError>(())
                &&& final(self)@ == old(self)@.update(
                    ballot_pos(old(self)@, ballot_index),
                    decrypted_ballot(
                        ballot_at(old(self)@, ballot_index),
                        decoded@,
                        options@,
                        min_choices,
                        max_choices,
                        tx_hash@,
                    ),
                )
            },
    {
        let p = match self.find_ballot(ballot_index) {
            Some(p) => p,
            None => {
                return Err(DecryptError::BallotAbsent);
            },
        };
        match self.ballots[p].status {
            BallotStatus::Unknown => {},
            _ => {
                return Err(DecryptError::AlreadyDecrypted);
            },
        }
        let outcome = validate_choices(&decoded, options, min_choices, max_choices);
        let ghost old_view = self@;
        let b = &mut self.ballots[p];
        b.status = outcome;
        b.decrypt_tx_hash = Some(tx_hash);
        if outcome == BallotStatus::Valid {
            b.decrypted_choices = Some(decoded);
        }
        proof {
            assert(self@ =~= old_view.update(
                ballot_pos(old_view, ballot_index),
                decrypted_ballot(
                    ballot_at(old_view, ballot_index),
                    decoded@,
                    options@,
                    min_choices,
                    max_choices,
                    tx_hash@,
                ),
            ));
        }
        Ok(())
    }
}

} // verus!
