use ridi_companion::decrypt::{content_key, first_step, next_step, Step, Strategy};
use ridi_companion::error::RuntimeError;
use ridi_companion::keystore::{derive_base_key, KeyStore};
use ridi_companion::text::cut;

fn run(archive: Result<(), String>, binary: Result<(), String>) -> (Result<(), String>, Vec<Strategy>) {
    let mut tried = Vec::new();
    let mut step: Step<String> = first_step();
    loop {
        match step {
            Step::Done(r) => return (r, tried),
            Step::Try(s) => {
                tried.push(s);
                let outcome = match s {
                    Strategy::Archive => archive.clone(),
                    Strategy::Binary => binary.clone(),
                };
                step = next_step(s, outcome);
            }
        }
    }
}

#[test]
fn archive_success_ends_the_work() {
    let (r, tried) = run(Ok(()), Err("b".to_string()));
    assert_eq!(r, Ok(()));
    assert_eq!(tried, vec![Strategy::Archive]);
}

#[test]
fn binary_is_tried_after_a_failed_archive() {
    let (r, tried) = run(Err("not an archive".to_string()), Ok(()));
    assert_eq!(r, Ok(()));
    assert_eq!(tried, vec![Strategy::Archive, Strategy::Binary]);
}

#[test]
fn the_binary_error_is_the_one_that_comes_out() {
    let (r, tried) = run(Err("a failed".to_string()), Err("b failed".to_string()));
    assert_eq!(r, Err("b failed".to_string()));
    assert_eq!(tried, vec![Strategy::Archive, Strategy::Binary]);
}

#[test]
fn content_key_is_bytes_68_to_84() {
    let mut blob = String::new();
    for i in 0..100u32 {
        blob.push(char::from_digit(i % 10, 10).unwrap());
    }
    assert_eq!(content_key(&blob), Ok("8901234567890123"));
    assert_eq!(content_key(&blob[..84]), Ok("8901234567890123"));
}

#[test]
fn a_short_key_blob_is_refused() {
    let blob = "x".repeat(83);
    assert_eq!(content_key(&blob), Err(RuntimeError::KeyBlobTooShort));
    assert_eq!(content_key(""), Err(RuntimeError::KeyBlobTooShort));
}

#[test]
fn cut_respects_character_boundaries() {
    assert_eq!(cut("hello", 1, 3), Some("el"));
    assert_eq!(cut("hello", 0, 5), Some("hello"));
    assert_eq!(cut("hello", 2, 2), Some(""));
    assert_eq!(cut("hello", 3, 2), None);
    assert_eq!(cut("hello", 0, 6), None);
    assert_eq!(cut("aé", 0, 2), None);
    assert_eq!(cut("aé", 1, 3), Some("é"));
}

#[test]
fn base_key_is_the_head_of_the_device_id() {
    let text = "{\"data\":{\"device\":{\"deviceId\":\"0123456789abcdefXYZ\"}}}";
    assert_eq!(derive_base_key(text), Ok("0123456789abcdef".to_string()));
}

#[test]
fn base_key_errors() {
    assert_eq!(derive_base_key("nope"), Err(RuntimeError::SettingsUnreadable));
    assert_eq!(derive_base_key("{\"data\":{}}"), Err(RuntimeError::DeviceIdNotFound));
    assert_eq!(
        derive_base_key("{\"data\":{\"device\":{\"deviceId\":16}}}"),
        Err(RuntimeError::DeviceIdNotFound)
    );
    assert_eq!(
        derive_base_key("{\"data\":{\"device\":{\"deviceId\":\"short\"}}}"),
        Err(RuntimeError::DeviceIdTooShort)
    );
}

#[test]
fn key_store_is_write_once() {
    let mut store = KeyStore::new();
    assert_eq!(store.get_base_key(), Err(RuntimeError::NotInitialized));
    assert_eq!(store.set("k1".to_string()), Ok(()));
    assert_eq!(store.get_base_key(), Ok(&"k1".to_string()));
    assert_eq!(store.set("k2".to_string()), Err(RuntimeError::AlreadyInitialized));
    assert_eq!(store.get_base_key(), Ok(&"k1".to_string()));
}

#[test]
fn second_init_derives_and_is_rejected() {
    let text = "{\"data\":{\"device\":{\"deviceId\":\"0123456789abcdefXYZ\"}}}";
    let mut store = KeyStore::new();
    assert_eq!(store.init_base_key("bad"), Err(RuntimeError::SettingsUnreadable));
    assert_eq!(store.get_base_key(), Err(RuntimeError::NotInitialized));
    assert_eq!(store.init_base_key(text), Ok(()));
    assert_eq!(store.init_base_key(text), Err(RuntimeError::AlreadyInitialized));
    assert_eq!(store.init_base_key("bad"), Err(RuntimeError::SettingsUnreadable));
    assert_eq!(store.get_base_key(), Ok(&"0123456789abcdef".to_string()));
}

#[test]
fn error_texts() {
    assert_eq!(RuntimeError::NotInitialized.message(), "unable to get base key");
    assert_eq!(RuntimeError::DeviceIdNotFound.message(), "deviceId not found");
    assert_eq!(RuntimeError::LibraryNotFound.message(), "Library path not found");
    assert_eq!(RuntimeError::AlreadyInitialized.message(), "base key already set");
    assert_eq!(RuntimeError::SettingsUnreadable.message(), "settings are not valid JSON");
    assert_eq!(RuntimeError::DeviceIdTooShort.message(), "deviceId too short");
    assert_eq!(RuntimeError::KeyBlobTooShort.message(), "key blob too short");
    assert_eq!(RuntimeError::NotSerializable.message(), "library is not serializable");
}
