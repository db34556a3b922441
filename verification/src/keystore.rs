//! The base key: derived once from the global settings, stored once, read
//! many times.

use vstd::prelude::*;
use vstd::utf8::encode_utf8;
use crate::error::RuntimeError;
use crate::json::{parse, member, as_text, parsed, member_of, string_of};
use crate::text::{cut, can_cut};

verus! {

/// How many bytes of the device's identifier make the base key.
pub const BASE_KEY_LEN: usize = 16;

/// The device's identifier in the settings: the text under `data`, `device`,
/// `deviceId`.
pub open spec fn device_id_in(settings: serde_json::Value) -> Option<Seq<char>> {
    match member_of(settings, "data"@) {
        Some(data) => match member_of(data, "device"@) {
            Some(device) => match member_of(device, "deviceId"@) {
                Some(id) => string_of(id),
                None => None,
            },
            None => None,
        },
        None => None,
    }
}

/// Finds the device's identifier in the parsed settings.
pub fn device_id<'a>(settings: &'a serde_json::Value) -> (id: Option<&'a str>)
    ensures
        match id {
            Some(s) => device_id_in(*settings) == Some(s@),
            None => device_id_in(*settings) is None,
        },
{
    match member(settings, "data") {
        Some(data) => match member(data, "device") {
            Some(device) => match member(device, "deviceId") {
                Some(id) => as_text(id),
                None => None,
            },
            None => None,
        },
        None => None,
    }
}

/// The bytes of the base key that the settings give, the first sixteen of
/// the device's identifier, or why they give none.
pub open spec fn base_key_in(settings: serde_json::Value) -> Result<Seq<u8>, RuntimeError> {
    match device_id_in(settings) {
        None => Err(RuntimeError::DeviceIdNotFound),
        Some(id) => if can_cut(encode_utf8(id), 0, 16) {
            Ok(encode_utf8(id).subrange(0, 16))
        } else {
            Err(RuntimeError::DeviceIdTooShort)
        },
    }
}

/// The bytes of the base key that the text of the settings gives, or why
/// it gives none.
pub open spec fn derived_key(settings_text: Seq<char>) -> Result<Seq<u8>, RuntimeError> {
    match parsed(settings_text) {
        None => Err(RuntimeError::SettingsUnreadable),
        Some(settings) => base_key_in(settings),
    }
}

/// The base key that the settings give.
pub fn base_key_of(settings: &serde_json::Value) -> (key: Result<String, RuntimeError>)
    ensures
        match key {
            Ok(k) => base_key_in(*settings) == Ok::<Seq<u8>, RuntimeError>(encode_utf8(k@)),
            Err(e) => base_key_in(*settings) == Err::<Seq<u8>, RuntimeError>(e),
        },
{
    match device_id(settings) {
        None => Err(RuntimeError::DeviceIdNotFound),
        Some(id) => match cut(id, 0, BASE_KEY_LEN) {
            Some(head) => Ok(String::from_str(head)),
            None => Err(RuntimeError::DeviceIdTooShort),
        },
    }
}

/// The base key that the text of the global settings gives.
pub fn derive_base_key(settings_text: &str) -> (key: Result<String, RuntimeError>)
    ensures
        match key {
            Ok(k) => derived_key(settings_text@) == Ok::<Seq<u8>, RuntimeError>(encode_utf8(k@)),
            Err(e) => derived_key(settings_text@) == Err::<Seq<u8>, RuntimeError>(e),
        },
{
    match parse(settings_text) {
        Err(_) => Err(RuntimeError::SettingsUnreadable),
        Ok(settings) => base_key_of(&settings),
    }
}

/// The place of the base key. It is empty until the key is stored, and
/// holds the same key ever after.
pub struct KeyStore {
    key: Option<String>,
}

impl View for KeyStore {
    type V = Option<Seq<char>>;

    closed spec fn view(&self) -> Option<Seq<char>> {
        match self.key {
            Some(k) => Some(k@),
            None => None,
        }
    }
}

impl KeyStore {
    /// An empty store.
    pub fn new() -> (s: Self)
        ensures
            s@ is None,
    {
        KeyStore { key: None }
    }

    /// Stores the key, unless one is stored already.
    pub fn set(&mut self, key: String) -> (r: Result<(), RuntimeError>)
        ensures
            old(self)@ is None ==> r is Ok && final(self)@ == Some(key@),
            old(self)@ is Some ==> r == Err::<(), RuntimeError>(RuntimeError::AlreadyInitialized)
                && final(self)@ == old(self)@,
    {
        if self.key.is_some() {
            return Err(RuntimeError::AlreadyInitialized);
        }
        self.key = Some(key);
        Ok(())
    }

    /// Reads the key.
    pub fn get_base_key(&self) -> (r: Result<&String, RuntimeError>)
        ensures
            match r {
                Ok(k) => self@ == Some(k@),
                Err(e) => self@ is None && e == RuntimeError::NotInitialized,
            },
    {
        match &self.key {
            Some(k) => Ok(k),
            None => Err(RuntimeError::NotInitialized),
        }
    }

    /// Derives the base key from the text of the global settings and stores
    /// it. The key is derived before the store is looked at: on a store
    /// that holds a key, settings that give a key end in
    /// `AlreadyInitialized`, and settings that give none in their own error.
    pub fn init_base_key(&mut self, settings_text: &str) -> (r: Result<(), RuntimeError>)
        ensures
            match derived_key(settings_text@) {
                Err(e) => r == Err::<(), RuntimeError>(e) && final(self)@ == old(self)@,
                Ok(bytes) => if old(self)@ is None {
                    r is Ok && final(self)@ is Some && encode_utf8(final(self)@.unwrap()) == bytes
                } else {
                    r == Err::<(), RuntimeError>(RuntimeError::AlreadyInitialized) && final(self)@
                        == old(self)@
                },
            },
    {
        match derive_base_key(settings_text) {
            Err(e) => Err(e),
            Ok(key) => self.set(key),
        }
    }
}

} // verus!
