use ridi_companion::text::{push_decimal, push_hex};
use ridi_companion::workspace::{digest, get_temp_book_path, get_temp_dir, join, TEMP_DIR_NAME};
use std::collections::hash_map::DefaultHasher;
use std::hash::{Hash, Hasher};

fn std_pair_hash(a: &str, b: &str) -> u64 {
    let mut h = DefaultHasher::new();
    a.hash(&mut h);
    b.hash(&mut h);
    h.finish()
}

#[test]
fn digest_is_the_running_hash_of_book_then_owner() {
    assert_eq!(digest("2345678", "1001"), std_pair_hash("2345678", "1001"));
    assert_eq!(digest("", ""), std_pair_hash("", ""));
    assert_eq!(digest("책", "ü"), std_pair_hash("책", "ü"));
}

#[test]
fn temp_path_is_deterministic() {
    let a = get_temp_book_path("/tmp", "B1", "42", "epub");
    let b = get_temp_book_path("/tmp", "B1", "42", "epub");
    assert_eq!(a, b);
}

#[test]
fn swapping_book_and_owner_changes_the_hash() {
    assert_ne!(digest("B1", "42"), digest("42", "B1"));
    assert_ne!(
        get_temp_book_path("/tmp", "B1", "42", "epub"),
        get_temp_book_path("/tmp", "42", "B1", "epub")
    );
}

#[test]
fn the_boundary_between_book_and_owner_counts() {
    assert_ne!(digest("ab", "c"), digest("a", "bc"));
}

#[test]
fn temp_path_has_the_documented_shape() {
    let p = get_temp_book_path("/tmp", "B1", "42", "pdf");
    let expected = format!(
        "/tmp/ridi-re.ridicrypt.gui/{:016x}.decrypted.pdf",
        std_pair_hash("B1", "42")
    );
    assert_eq!(p, expected);
}

#[test]
fn temp_path_uses_forward_slashes() {
    let p = get_temp_book_path("C:\\Users\\me\\Temp", "B1", "42", "epub");
    assert!(p.starts_with("C:/Users/me/Temp/ridi-re.ridicrypt.gui/"));
    assert!(!p.contains('\\'));
    assert!(p.ends_with(".decrypted.epub"));
}

#[test]
fn temp_dir_is_below_the_system_directory() {
    assert_eq!(TEMP_DIR_NAME, "ridi-re.ridicrypt.gui");
    assert_eq!(get_temp_dir("/tmp"), "/tmp/ridi-re.ridicrypt.gui");
    assert_eq!(get_temp_dir("/var/T/"), "/var/T/ridi-re.ridicrypt.gui");
}

#[test]
fn join_adds_one_separator_where_needed() {
    assert_eq!(join("a", "b"), "a/b");
    assert_eq!(join("a/", "b"), "a/b");
    assert_eq!(join("", "b"), "b");
    assert_eq!(join("a\\b", "c\\d"), "a/b/c/d");
    assert_eq!(join("C:\\Temp\\", "x"), "C:/Temp/x");
}

#[test]
fn hex_is_padded_and_lowercase() {
    let mut s = String::new();
    push_hex(&mut s, 0xff, 16);
    assert_eq!(s, "00000000000000ff");
    let mut t = String::new();
    push_hex(&mut t, 0xDEADBEEF00C0FFEE, 16);
    assert_eq!(t, "deadbeef00c0ffee");
    let mut u = String::from("x");
    push_hex(&mut u, u64::MAX, 16);
    assert_eq!(u, "xffffffffffffffff");
}

#[test]
fn decimal_has_no_leading_zeros() {
    let mut s = String::new();
    push_decimal(&mut s, 0);
    assert_eq!(s, "0");
    let mut t = String::new();
    push_decimal(&mut t, 1700000000);
    assert_eq!(t, "1700000000");
    let mut u = String::new();
    push_decimal(&mut u, u64::MAX);
    assert_eq!(u, "18446744073709551615");
}
