//! Wallet key registry: named P-256 signing keys, their byte encoding, and the
//! confirmation-gated deletion protocol, with machine-checked contracts.
//!
//! The registry's rows live in a [`KeyStore`]; persisting them is the caller's
//! business. Keys are made, encoded and decoded by the [`codec`], which leaves
//! the curve arithmetic to the `p256` crate.

pub mod codec;
pub mod errors;
pub mod gate;
pub mod laws;
pub mod registry;

pub use codec::{decode, derive_public, encode, export_pem, generate, SigningKey, VerifyingKey};
pub use errors::{DeletionError, LoadingError};
pub use gate::confirmation_matches;
pub use registry::{
    create_signing_key, delete_signing_key, get_key_blob, get_signing_key_pem, get_wallet_names,
    load_signing_key, load_verifying_key, store_signing_key, KeyStore,
};
