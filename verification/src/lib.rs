pub mod ballot_by_index;
pub mod choices;
pub mod decrypt_ballot;
pub mod enums;
pub mod errors;
pub mod hex_codec;
pub mod schema;
pub mod state_gate;
