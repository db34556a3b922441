//! The failures that the library reports.

use vstd::prelude::*;

verus! {

/// Why an operation failed.
#[derive(Clone, Copy, Debug, PartialEq, Eq, Structural)]
pub enum RuntimeError {
    /// The base key was read before it was stored.
    NotInitialized,
    /// The base key was stored a second time.
    AlreadyInitialized,
    /// The base key cannot be derived: the global settings are no JSON text.
    SettingsUnreadable,
    /// The base key cannot be derived: the global settings name no device,
    /// or not as a text.
    DeviceIdNotFound,
    /// The base key cannot be derived: the device's identifier has no first
    /// sixteen bytes to cut off.
    DeviceIdTooShort,
    /// The key blob has no bytes 68 to 84 to cut out.
    KeyBlobTooShort,
    /// The directory of the users is not there.
    LibraryNotFound,
    /// The listing could not be written as JSON.
    NotSerializable,
}

impl RuntimeError {
    /// The text of each failure.
    pub open spec fn spec_message(self) -> Seq<char> {
        match self {
            RuntimeError::NotInitialized => "unable to get base key"@,
            RuntimeError::AlreadyInitialized => "base key already set"@,
            RuntimeError::SettingsUnreadable => "settings are not valid JSON"@,
            RuntimeError::DeviceIdNotFound => "deviceId not found"@,
            RuntimeError::DeviceIdTooShort => "deviceId too short"@,
            RuntimeError::KeyBlobTooShort => "key blob too short"@,
            RuntimeError::LibraryNotFound => "Library path not found"@,
            RuntimeError::NotSerializable => "library is not serializable"@,
        }
    }

    /// The text under which the frontend sees the failure.
    pub fn message(&self) -> (s: String)
        ensures
            s@ == self.spec_message(),
    {
        match self {
            RuntimeError::NotInitialized => String::from_str("unable to get base key"),
            RuntimeError::AlreadyInitialized => String::from_str("base key already set"),
            RuntimeError::SettingsUnreadable => String::from_str("settings are not valid JSON"),
            RuntimeError::DeviceIdNotFound => String::from_str("deviceId not found"),
            RuntimeError::DeviceIdTooShort => String::from_str("deviceId too short"),
            RuntimeError::KeyBlobTooShort => String::from_str("key blob too short"),
            RuntimeError::LibraryNotFound => String::from_str("Library path not found"),
            RuntimeError::NotSerializable => String::from_str("library is not serializable"),
        }
    }
}

} // verus!
