use ridi_companion::error::RuntimeError;
use ridi_companion::storage::{DirEntry, DirListing};
use ridi_companion::walk::{build_listing, get_library, user_shelf, BookStore, UserStore};

fn book(id: &str, meta: Option<&str>, listing: DirListing) -> BookStore {
    BookStore { book_id: id.to_string(), meta_text: meta.map(|m| m.to_string()), listing }
}

fn user(dir: &str, books: Option<Vec<BookStore>>) -> UserStore {
    UserStore { dir_name: dir.to_string(), books }
}

#[test]
fn missing_users_directory_is_the_one_error() {
    assert_eq!(get_library("/r", None), Err(RuntimeError::LibraryNotFound));
}

#[test]
fn no_users_gives_an_empty_object() {
    assert_eq!(get_library("/r", Some(&vec![])), Ok("{}".to_string()));
}

#[test]
fn a_user_with_a_broken_index_does_not_disturb_the_other() {
    let users = vec![
        user("_2", None),
        user(
            "_1",
            Some(vec![book(
                "BID123",
                Some("{\"data\":{\"title\":\"T\"}}"),
                DirListing::Entries(vec![
                    DirEntry { name: "BID123.epub".to_string(), created_secs: Some(10) },
                    DirEntry { name: "BID123.decrypted.epub".to_string(), created_secs: Some(11) },
                    DirEntry { name: "BID123.dat".to_string(), created_secs: None },
                ]),
            )]),
        ),
    ];
    assert_eq!(
        get_library("/r", Some(&users)),
        Ok("{\"1\":{\"BID123\":{\"storage\":{\"basePath\":\"/r/library/_1/BID123\",\"createTime\":\"10\",\"filename\":\"BID123.epub\",\"keyFilename\":\"BID123.dat\"},\"title\":\"T\"}}}".to_string())
    );
}

#[test]
fn a_broken_book_does_not_disturb_the_others() {
    let books = vec![
        book("A", None, DirListing::Absent),
        book("B", Some("not json"), DirListing::Absent),
        book("C", Some("{\"data\":[]}"), DirListing::Absent),
        book("D", Some("{\"data\":{}}"), DirListing::Unreadable),
    ];
    let shelf = user_shelf("/r", "7", &books);
    assert!(!shelf.is_empty());
    let users = vec![user("7", Some(books))];
    assert_eq!(
        get_library("/r", Some(&users)),
        Ok("{\"7\":{\"D\":{\"storage\":{\"basePath\":\"/r/library/_7/D\"}}}}".to_string())
    );
}

#[test]
fn users_without_a_readable_book_are_left_out() {
    let users = vec![
        user("abc123", Some(vec![book("B", Some("{\"data\":{}}"), DirListing::Absent)])),
        user("_5", Some(vec![])),
        user("6", Some(vec![book("B", None, DirListing::Absent)])),
        user("_8", Some(vec![book("B", Some("{\"data\":{}}"), DirListing::Absent)])),
    ];
    let listing = build_listing("/r", &users);
    assert_eq!(
        listing.to_json(),
        Ok("{\"8\":{\"B\":{\"storage\":{\"basePath\":\"/r/library/_8/B\",\"createTime\":\"\",\"filename\":\"\",\"keyFilename\":\"\"}}}}".to_string())
    );
}

#[test]
fn the_later_directory_of_a_user_wins() {
    let users = vec![
        user("3", Some(vec![book("X", Some("{\"data\":{\"n\":1}}"), DirListing::Unreadable)])),
        user("_3", Some(vec![book("Y", Some("{\"data\":{\"n\":2}}"), DirListing::Unreadable)])),
        user("3", None),
    ];
    assert_eq!(
        get_library("/r", Some(&users)),
        Ok("{\"3\":{\"Y\":{\"n\":2,\"storage\":{\"basePath\":\"/r/library/_3/Y\"}}}}".to_string())
    );
}
