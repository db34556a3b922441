//! The order in which the two content decryptors are tried, and the key
//! that they are given.

use vstd::prelude::*;
use vstd::string::StringSliceAdditionalSpecFns;
use crate::error::RuntimeError;
use crate::text::{cut, can_cut};

verus! {

/// Where the content key begins in a decrypted key blob, in bytes. The
/// vendor's format fixes it.
pub const CONTENT_KEY_START: usize = 68;

/// Where the content key ends in a decrypted key blob, in bytes.
pub const CONTENT_KEY_END: usize = 84;

/// Cuts the content key out of a decrypted key blob.
pub fn content_key<'a>(key_blob: &'a str) -> (key: Result<&'a str, RuntimeError>)
    ensures
        match key {
            Ok(k) => can_cut(key_blob.spec_bytes(), 68, 84) && k.spec_bytes()
                == key_blob.spec_bytes().subrange(68, 84),
            Err(e) => !can_cut(key_blob.spec_bytes(), 68, 84) && e == RuntimeError::KeyBlobTooShort,
        },
{
    match cut(key_blob, CONTENT_KEY_START, CONTENT_KEY_END) {
        Some(k) => Ok(k),
        None => Err(RuntimeError::KeyBlobTooShort),
    }
}

/// A way to decrypt a content file.
#[derive(Clone, Copy, Debug, PartialEq, Eq, Structural)]
pub enum Strategy {
    /// The file is an archive whose members are encrypted.
    Archive,
    /// The file is one encrypted stream.
    Binary,
}

/// What to do next for a content file.
pub enum Step<E> {
    /// Try this strategy and come back with its outcome.
    Try(Strategy),
    /// Nothing is left to try: this is the outcome of the whole.
    Done(Result<(), E>),
}

/// The step that follows the outcome of a strategy: a success ends the
/// work; a failure of the archive strategy is forgotten and the binary one
/// is tried; the outcome of the binary strategy is the outcome of the whole.
pub open spec fn step_after<E>(tried: Strategy, outcome: Result<(), E>) -> Step<E> {
    match tried {
        Strategy::Archive => match outcome {
            Ok(_) => Step::Done(Ok(())),
            Err(_) => Step::Try(Strategy::Binary),
        },
        Strategy::Binary => Step::Done(outcome),
    }
}

/// The outcome of the whole, given what each strategy gives.
pub open spec fn overall<E>(archive: Result<(), E>, binary: Result<(), E>) -> Result<(), E> {
    match archive {
        Ok(_) => Ok(()),
        Err(_) => binary,
    }
}

/// The first step: the archive strategy.
pub fn first_step<E>() -> (step: Step<E>)
    ensures
        step == Step::<E>::Try(Strategy::Archive),
{
    Step::Try(Strategy::Archive)
}

/// The step that follows the outcome of a strategy.
pub fn next_step<E>(tried: Strategy, outcome: Result<(), E>) -> (step: Step<E>)
    ensures
        step == step_after(tried, outcome),
{
    match tried {
        Strategy::Archive => match outcome {
            Ok(_) => Step::Done(Ok(())),
            Err(_) => Step::Try(Strategy::Binary),
        },
        Strategy::Binary => Step::Done(outcome),
    }
}

/// Following the steps from the first one on ends in a success wherever
/// one of the two strategies succeeds when it is tried, and else in the
/// failure of the binary strategy: that of the archive strategy never
/// comes out.
pub proof fn lemma_fallback<E>(archive: Result<(), E>, binary: Result<(), E>)
    ensures
        archive is Ok ==> step_after(Strategy::Archive, archive) == Step::Done(Ok::<(), E>(())),
        archive is Err ==> step_after(Strategy::Archive, archive) == Step::<E>::Try(
            Strategy::Binary,
        ) && step_after(Strategy::Binary, binary) == Step::Done(overall(archive, binary)),
        archive is Err && binary is Ok ==> overall(archive, binary) is Ok,
        archive is Err && binary is Err ==> overall(archive, binary) == binary,
{
}

} // verus!
