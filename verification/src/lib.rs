//! An in-memory credential store.
//!
//! The store maps each username to a salted one-way hash of the password
//! that the username was registered with, and answers whether a presented
//! password matches that hash. Hashing and matching are bcrypt's; the
//! bookkeeping around them is verified.
//!
//! Usernames are compared exactly and with regard to case. The empty string
//! is a username, and a password, like any other.

pub mod hashing;
pub mod laws;
pub mod store;

pub use hashing::{
    hash_password, hashing_outcome, verification_outcome, verify_password, HashBackendFailure,
    HASH_COST,
};
pub use store::UserDB;
