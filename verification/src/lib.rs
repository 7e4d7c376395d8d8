//! A validator for a non-fungible token type on a cell-based ledger.
//!
//! A transaction consumes cells and creates cells. The validator is the type
//! script of the token: it sees the transaction that touches its cells and
//! accepts or rejects it. An output that carries an identifier already present
//! among the consumed cells of the type is a transfer. Any other output of the
//! type is a mint, which needs a governance lock among the inputs and an
//! identifier derived from the first input and the output's position.
//!
//! [`validate`] runs the whole pipeline on a [`Transaction`]; [`entry`] turns
//! its verdict into the outcome code for the host. The stages are public
//! too. The module `laws` states what the verdict is on every transaction.

pub mod consumed;
pub mod digest;
pub mod error;
pub mod identifier;
pub mod laws;
pub mod transaction;
pub mod validator;

pub use consumed::ConsumedSet;
pub use digest::{build_mint_preimage, derive_minted_identifier, CKB_HASH_PERSONALIZATION};
pub use error::{Error, SysError};
pub use identifier::{byte32_eq, nft_identifier, read_identifier, Byte32, CellData};
pub use transaction::{Output, Transaction};
pub use validator::{
    check_output, check_transition, collect_consumed, entry, governance_lock_hash,
    governance_mode, locate_nft_outputs, settle_mint, validate, validate_outputs,
};
