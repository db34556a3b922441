//! Logic of a local companion for an encrypted e-book store: the scratch
//! workspace's file names, the rules by which the library listing is put
//! together, the order in which the content decryptors are tried, the
//! write-once key store and the result envelope handed to the frontend.

pub mod decrypt;
pub mod envelope;
pub mod error;
pub mod json;
pub mod keystore;
pub mod library;
pub mod storage;
pub mod text;
pub mod user_id;
pub mod walk;
pub mod workspace;
