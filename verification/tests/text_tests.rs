use ridi_companion::text::{begins, chars_of, ends, has_at, holds, text_of};

fn cs(s: &str) -> Vec<char> {
    s.chars().collect()
}

#[test]
fn chars_and_back() {
    assert_eq!(chars_of("aé책"), vec!['a', 'é', '책']);
    assert_eq!(chars_of(""), Vec::<char>::new());
    assert_eq!(text_of(&cs("hello"), 1, 4), "ell");
    assert_eq!(text_of(&cs("hello"), 2, 2), "");
}

#[test]
fn prefix_suffix_and_part() {
    assert!(begins(&cs("BID123.epub"), &cs("BID123")));
    assert!(!begins(&cs("BID"), &cs("BID123")));
    assert!(begins(&cs("x"), &cs("")));
    assert!(ends(&cs("BID123.epub"), &cs(".epub")));
    assert!(!ends(&cs("BID123.epub"), &cs(".dat")));
    assert!(!ends(&cs("ub"), &cs(".epub")));
    assert!(holds(&cs("B.decrypted.epub"), &cs(".decrypted.")));
    assert!(!holds(&cs("B.decrypted"), &cs(".decrypted.")));
    assert!(holds(&cs(""), &cs("")));
    assert!(has_at(&cs("abc"), &cs("bc"), 1));
    assert!(!has_at(&cs("abc"), &cs("bc"), 2));
    assert!(!has_at(&cs("abc"), &cs(""), 4));
    assert!(has_at(&cs("abc"), &cs(""), 3));
}
