use votings_service::ballot_by_index::{get_ballot_by_index, BallotByIndexQuery};
use votings_service::decrypt_ballot::TxDecryptBallot;
use votings_service::enums::{BallotStatus, InvalidReason, VotingState};
use votings_service::errors::{DecryptError, Error};
use votings_service::schema::{
    Ballot, BallotConfig, BallotsStorage, CryptosystemSettings, DistrictConfig, EncryptedChoice,
    ServiceConfig, ServiceSchema, Voting, VotingEntry,
};

const OPERATOR_KEY: [u8; 4] = [0x01, 0x02, 0x03, 0x04];

fn operator_key_hex() -> String {
    String::from("01020304")
}

fn service_config() -> ServiceConfig {
    ServiceConfig { api_keys: vec![operator_key_hex()] }
}

fn encrypted_choice() -> EncryptedChoice {
    EncryptedChoice {
        encrypted_message: vec![0x0a, 0xff],
        nonce: vec![0x00, 0x10],
        public_key: vec![0xab, 0xcd],
    }
}

fn unknown_ballot(index: u32, district_id: u32) -> Ballot {
    Ballot {
        index,
        voter: vec![0x11, 0x22],
        district_id,
        encrypted_choice: encrypted_choice(),
        decrypted_choices: None,
        store_tx_hash: vec![0x55; 32],
        decrypt_tx_hash: None,
        status: BallotStatus::Unknown,
    }
}

fn wrong_district_ballot(index: u32, district_id: u32) -> Ballot {
    Ballot {
        index,
        voter: vec![0x11, 0x22],
        district_id,
        encrypted_choice: encrypted_choice(),
        decrypted_choices: None,
        store_tx_hash: vec![0x55; 32],
        decrypt_tx_hash: None,
        status: BallotStatus::Invalid(InvalidReason::WrongDistrict),
    }
}

fn schema_with(state: VotingState, key_published: bool, ballots: Vec<Ballot>) -> ServiceSchema {
    let voting = Voting {
        id: String::from("v1"),
        state,
        ballots_config: vec![DistrictConfig {
            district_id: 1,
            config: BallotConfig { options: vec![10, 11, 12], min_choices: 1, max_choices: 2 },
        }],
        crypto_system_settings: CryptosystemSettings {
            public_key: vec![0xaa; 32],
            private_key: if key_published { Some(vec![0xbb; 32]) } else { None },
        },
    };
    ServiceSchema {
        entries: vec![VotingEntry { voting, ballots: BallotsStorage { ballots } }],
    }
}

fn stopped_schema() -> ServiceSchema {
    schema_with(VotingState::Stopped, true, vec![unknown_ballot(5, 1), unknown_ballot(6, 1)])
}

fn tx(index: u32) -> TxDecryptBallot {
    TxDecryptBallot { voting_id: String::from("v1"), ballot_index: index, seed: 42 }
}

fn operator() -> Vec<u8> {
    OPERATOR_KEY.to_vec()
}

fn tx_hash() -> Vec<u8> {
    vec![0x77; 32]
}

fn query(index: u32) -> BallotByIndexQuery {
    BallotByIndexQuery { voting_id: String::from("v1"), ballot_index: index }
}

#[test]
fn decrypt_single_valid_choice() {
    let mut schema = stopped_schema();
    let config = service_config();
    let r = tx(5).execute(&mut schema, &config, Some(&operator()), Some(&tx_hash()), &vec![10]);
    assert_eq!(r, Ok(()));
    let view = get_ballot_by_index(&schema, &query(5)).unwrap();
    assert_eq!(view.status, BallotStatus::Valid);
    assert_eq!(view.decrypted_choices, Some(vec![10]));
    assert_eq!(view.decrypt_tx_hash, Some(vec![0x77; 32]));
}

#[test]
fn decrypt_too_many_choices_is_out_of_range() {
    let mut schema = stopped_schema();
    let config = service_config();
    let r = tx(6).execute(
        &mut schema,
        &config,
        Some(&operator()),
        Some(&tx_hash()),
        &vec![10, 11, 12],
    );
    assert_eq!(r, Ok(()));
    let view = get_ballot_by_index(&schema, &query(6)).unwrap();
    assert_eq!(view.status, BallotStatus::Invalid(InvalidReason::OutOfRange));
    assert_eq!(view.decrypted_choices, None);
    assert_eq!(view.decrypt_tx_hash, Some(vec![0x77; 32]));
}

#[test]
fn replaying_decrypt_is_a_noop() {
    let mut schema = stopped_schema();
    let config = service_config();
    let r = tx(5).execute(&mut schema, &config, Some(&operator()), Some(&tx_hash()), &vec![10]);
    assert_eq!(r, Ok(()));
    let before = get_ballot_by_index(&schema, &query(5)).unwrap();

    let replay = tx(5).execute(
        &mut schema,
        &config,
        Some(&operator()),
        Some(&vec![0x99; 32]),
        &vec![11, 12],
    );
    assert_eq!(replay, Ok(()));
    let after = get_ballot_by_index(&schema, &query(5)).unwrap();
    assert_eq!(after.status, before.status);
    assert_eq!(after.decrypted_choices, before.decrypted_choices);
    assert_eq!(after.decrypt_tx_hash, before.decrypt_tx_hash);
    assert_eq!(after.store_tx_hash, before.store_tx_hash);
    assert_eq!(after.voter, before.voter);
    assert_eq!(after.district_id, before.district_id);
    assert_eq!(after.index, before.index);
    assert_eq!(after.encrypted_choice.message, before.encrypted_choice.message);
    assert_eq!(after.encrypted_choice.nonce, before.encrypted_choice.nonce);
    assert_eq!(after.encrypted_choice.public_key, before.encrypted_choice.public_key);
}

#[test]
fn unknown_option_is_rejected() {
    let mut schema = stopped_schema();
    let config = service_config();
    let r = tx(5).execute(&mut schema, &config, Some(&operator()), Some(&tx_hash()), &vec![99]);
    assert_eq!(r, Ok(()));
    let view = get_ballot_by_index(&schema, &query(5)).unwrap();
    assert_eq!(view.status, BallotStatus::Invalid(InvalidReason::UnknownOption));
    assert_eq!(view.decrypted_choices, None);
}

#[test]
fn duplicate_option_is_rejected() {
    let mut schema = stopped_schema();
    let config = service_config();
    let r = tx(5).execute(
        &mut schema,
        &config,
        Some(&operator()),
        Some(&tx_hash()),
        &vec![10, 10],
    );
    assert_eq!(r, Ok(()));
    let view = get_ballot_by_index(&schema, &query(5)).unwrap();
    assert_eq!(view.status, BallotStatus::Invalid(InvalidReason::DuplicateOption));
    assert_eq!(view.decrypted_choices, None);
}

#[test]
fn too_few_choices_is_out_of_range() {
    let mut schema = stopped_schema();
    let config = service_config();
    let r = tx(5).execute(&mut schema, &config, Some(&operator()), Some(&tx_hash()), &vec![]);
    assert_eq!(r, Ok(()));
    let view = get_ballot_by_index(&schema, &query(5)).unwrap();
    assert_eq!(view.status, BallotStatus::Invalid(InvalidReason::OutOfRange));
    assert_eq!(view.decrypted_choices, None);
}

#[test]
fn wrong_district_ballot_is_left_alone() {
    let mut schema = schema_with(VotingState::Stopped, true, vec![wrong_district_ballot(5, 7)]);
    let config = service_config();
    let r = tx(5).execute(&mut schema, &config, Some(&operator()), Some(&tx_hash()), &vec![10]);
    assert_eq!(r, Ok(()));
    let view = get_ballot_by_index(&schema, &query(5)).unwrap();
    assert_eq!(view.status, BallotStatus::Invalid(InvalidReason::WrongDistrict));
    assert_eq!(view.decrypted_choices, None);
    assert_eq!(view.decrypt_tx_hash, None);
}

#[test]
fn missing_author_is_wrong_tx_initiator() {
    let mut schema = stopped_schema();
    let config = service_config();
    let r = tx(5).execute(&mut schema, &config, None, Some(&tx_hash()), &vec![10]);
    assert_eq!(r, Err(Error::WrongTxInitiator));
    let view = get_ballot_by_index(&schema, &query(5)).unwrap();
    assert_eq!(view.status, BallotStatus::Unknown);
}

#[test]
fn unauthorized_author_is_rejected() {
    let mut schema = stopped_schema();
    let config = service_config();
    let intruder: Vec<u8> = vec![0xde, 0xad];
    let r = tx(5).execute(&mut schema, &config, Some(&intruder), Some(&tx_hash()), &vec![10]);
    assert_eq!(r, Err(Error::AuthorNotAuthorized));
    let view = get_ballot_by_index(&schema, &query(5)).unwrap();
    assert_eq!(view.status, BallotStatus::Unknown);
}

#[test]
fn unknown_voting_is_rejected() {
    let mut schema = stopped_schema();
    let config = service_config();
    let missing = TxDecryptBallot {
        voting_id: String::from("v2"),
        ballot_index: 5,
        seed: 0,
    };
    let r = missing.execute(&mut schema, &config, Some(&operator()), Some(&tx_hash()), &vec![10]);
    assert_eq!(r, Err(Error::VotingDoesNotExist));

    let q = BallotByIndexQuery { voting_id: String::from("v2"), ballot_index: 5 };
    assert_eq!(get_ballot_by_index(&schema, &q).unwrap_err(), Error::VotingDoesNotExist);
}

#[test]
fn decrypt_before_stop_is_forbidden() {
    let mut schema = schema_with(VotingState::Open, true, vec![unknown_ballot(5, 1)]);
    let config = service_config();
    let r = tx(5).execute(&mut schema, &config, Some(&operator()), Some(&tx_hash()), &vec![10]);
    assert_eq!(r, Err(Error::ForbiddenForThisVotingState));
    let view = get_ballot_by_index(&schema, &query(5)).unwrap();
    assert_eq!(view.status, BallotStatus::Unknown);
    assert_eq!(view.decrypted_choices, None);
    assert_eq!(view.decrypt_tx_hash, None);
}

#[test]
fn query_during_registration_is_forbidden() {
    let schema = schema_with(VotingState::Registration, false, vec![unknown_ballot(5, 1)]);
    let existing = get_ballot_by_index(&schema, &query(5));
    assert_eq!(existing.unwrap_err(), Error::ForbiddenForThisVotingState);
    let missing = get_ballot_by_index(&schema, &query(99));
    assert_eq!(missing.unwrap_err(), Error::ForbiddenForThisVotingState);
}

#[test]
fn missing_ballot_is_rejected() {
    let mut schema = stopped_schema();
    let config = service_config();
    let r = tx(99).execute(&mut schema, &config, Some(&operator()), Some(&tx_hash()), &vec![10]);
    assert_eq!(r, Err(Error::BallotDoesNotExist));
    assert_eq!(get_ballot_by_index(&schema, &query(99)).unwrap_err(), Error::BallotDoesNotExist);
}

#[test]
fn unpublished_key_is_rejected() {
    let mut schema = schema_with(VotingState::Stopped, false, vec![unknown_ballot(5, 1)]);
    let config = service_config();
    let r = tx(5).execute(&mut schema, &config, Some(&operator()), Some(&tx_hash()), &vec![10]);
    assert_eq!(r, Err(Error::DecryptionKeyIsNotPublished));
    let view = get_ballot_by_index(&schema, &query(5)).unwrap();
    assert_eq!(view.status, BallotStatus::Unknown);
}

#[test]
fn missing_tx_hash_is_wrong_tx_initiator() {
    let mut schema = stopped_schema();
    let config = service_config();
    let r = tx(5).execute(&mut schema, &config, Some(&operator()), None, &vec![10]);
    assert_eq!(r, Err(Error::WrongTxInitiator));
    let view = get_ballot_by_index(&schema, &query(5)).unwrap();
    assert_eq!(view.status, BallotStatus::Unknown);
}

#[test]
fn storage_decrypt_absent_ballot_fails() {
    let mut storage = BallotsStorage { ballots: vec![unknown_ballot(5, 1)] };
    let r = storage.decrypt_ballot(99, vec![10], vec![0x77; 32], &vec![10, 11, 12], 1, 2);
    assert_eq!(r, Err(DecryptError::BallotAbsent));
}

#[test]
fn storage_decrypt_terminal_ballot_fails() {
    let mut storage = BallotsStorage { ballots: vec![wrong_district_ballot(5, 7)] };
    let r = storage.decrypt_ballot(5, vec![10], vec![0x77; 32], &vec![10, 11, 12], 1, 2);
    assert_eq!(r, Err(DecryptError::AlreadyDecrypted));
}

#[test]
fn view_renders_binary_fields_as_lowercase_hex() {
    let schema = schema_with(VotingState::Open, false, vec![unknown_ballot(5, 1)]);
    let view = get_ballot_by_index(&schema, &query(5)).unwrap();
    assert_eq!(view.encrypted_choice.message, "0aff");
    assert_eq!(view.encrypted_choice.nonce, "0010");
    assert_eq!(view.encrypted_choice.public_key, "abcd");
    assert_eq!(view.voter, vec![0x11, 0x22]);
    assert_eq!(view.index, 5);
    assert_eq!(view.district_id, 1);
    assert_eq!(view.store_tx_hash, vec![0x55; 32]);
}

#[test]
fn empty_selection_is_valid_when_minimum_is_zero() {
    let voting = Voting {
        id: String::from("v1"),
        state: VotingState::Stopped,
        ballots_config: vec![DistrictConfig {
            district_id: 1,
            config: BallotConfig { options: vec![10], min_choices: 0, max_choices: 1 },
        }],
        crypto_system_settings: CryptosystemSettings {
            public_key: vec![0xaa; 32],
            private_key: Some(vec![0xbb; 32]),
        },
    };
    let mut schema = ServiceSchema {
        entries: vec![VotingEntry {
            voting,
            ballots: BallotsStorage { ballots: vec![unknown_ballot(5, 1)] },
        }],
    };
    let config = service_config();
    let r = tx(5).execute(&mut schema, &config, Some(&operator()), Some(&tx_hash()), &vec![]);
    assert_eq!(r, Ok(()));
    let view = get_ballot_by_index(&schema, &query(5)).unwrap();
    assert_eq!(view.status, BallotStatus::Valid);
    assert_eq!(view.decrypted_choices, Some(vec![]));
}

#[test]
fn is_api_key_checks_membership() {
    let config = service_config();
    assert!(config.is_api_key(&String::from("01020304")));
    assert!(!config.is_api_key(&String::from("0102030f")));
}
