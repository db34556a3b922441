//! The walk over the users and their books. A user or a book whose store
//! cannot be read is left out; it never stops the walk.

use vstd::prelude::*;
use crate::error::RuntimeError;
use crate::json::{members_of, rendered};
use crate::library::{
    book_base_path, book_entry, base_path_of, book_data_in, is_book_entry, has_a_book, Listing,
    Shelf,
};
use crate::storage::DirListing;
use crate::user_id::{user_id_from_dir_name, user_id_of};

verus! {

/// What was read for one book that a user's index names: the decrypted
/// text of its metadata, where that could be had, and the listing of its
/// directory.
#[derive(Clone, Debug)]
pub struct BookStore {
    pub book_id: String,
    pub meta_text: Option<String>,
    pub listing: DirListing,
}

/// What was read for one directory below the users' directory: its name
/// and, where the user's index could be decrypted and read, the books that
/// the index names, in its order.
#[derive(Clone, Debug)]
pub struct UserStore {
    pub dir_name: String,
    pub books: Option<Vec<BookStore>>,
}

/// Whether the book's metadata could be read.
pub open spec fn is_good(book: BookStore) -> bool {
    book.meta_text is Some && book_data_in(book.meta_text.unwrap()@) is Some
}

/// Whether `record` is what the listing holds for this book of this user.
pub open spec fn entry_fits(
    record: serde_json::Value,
    root: Seq<char>,
    user_id: Seq<char>,
    book: BookStore,
) -> bool {
    book.meta_text is Some && is_book_entry(
        record,
        book.meta_text.unwrap()@,
        base_path_of(root, user_id, book.book_id@),
        book.book_id@,
        book.listing,
    )
}

/// Whether, among the first `n` books, the one at `i` is the last readable
/// one with its identifier.
pub open spec fn is_last_good(books: Seq<BookStore>, n: int, i: int) -> bool {
    &&& 0 <= i < n
    &&& is_good(books[i])
    &&& forall|j: int|
        i < j < n ==> !(is_good(#[trigger] books[j]) && books[j].book_id@ == books[i].book_id@)
}

/// Whether `shelf` holds the first `n` books: one record for each
/// identifier that has a readable book, made from the last such book, and
/// nothing else.
pub open spec fn shelf_holds(
    shelf: Map<Seq<char>, serde_json::Value>,
    root: Seq<char>,
    user_id: Seq<char>,
    books: Seq<BookStore>,
    n: int,
) -> bool {
    &&& forall|b: Seq<char>| #[trigger]
        shelf.contains_key(b) ==> exists|i: int|
            {
                &&& #[trigger] is_last_good(books, n, i)
                &&& books[i].book_id@ == b
                &&& entry_fits(shelf[b], root, user_id, books[i])
            }
    &&& forall|i: int|
        0 <= i < n && is_good(#[trigger] books[i]) ==> shelf.contains_key(books[i].book_id@)
}

/// Puts together the shelf of one user. A book whose metadata could not be
/// had or read is passed over; the others are not touched by it.
pub fn user_shelf(root: &str, user_id: &str, books: &Vec<BookStore>) -> (shelf: Shelf)
    ensures
        shelf.well_formed(),
        shelf_holds(shelf@, root@, user_id@, books@, books@.len() as int),
{
    let mut shelf = Shelf::new();
    let mut i: usize = 0;
    while i < books.len()
        invariant
            i <= books@.len(),
            shelf.well_formed(),
            shelf_holds(shelf@, root@, user_id@, books@, i as int),
        decreases books@.len() - i,
    {
        let book = &books[i];
        let ghost before = shelf@;
        let mut put: bool = false;
        if let Some(meta) = &book.meta_text {
            let base = book_base_path(root, user_id, book.book_id.as_str());
            if let Some(record) = book_entry(
                meta.as_str(),
                base,
                book.book_id.as_str(),
                &book.listing,
            ) {
                shelf.put(book.book_id.as_str(), record);
                put = true;
                proof {
                    assert(is_good(books@[i as int]));
                    assert(entry_fits(record, root@, user_id@, books@[i as int]));
                    assert(is_last_good(books@, i + 1, i as int));
                }
            }
        }
        proof {
            let id = books@[i as int].book_id@;
            assert(put == is_good(books@[i as int]));
            assert forall|b: Seq<char>| #[trigger] shelf@.contains_key(b) implies exists|k: int|
                {
                    &&& #[trigger] is_last_good(books@, i + 1, k)
                    &&& books@[k].book_id@ == b
                    &&& entry_fits(shelf@[b], root@, user_id@, books@[k])
                } by {
                if put && b == id {
                    assert(is_last_good(books@, i + 1, i as int));
                } else {
                    assert(before.contains_key(b));
                    let k = choose|k: int|
                        {
                            &&& #[trigger] is_last_good(books@, i as int, k)
                            &&& books@[k].book_id@ == b
                            &&& entry_fits(before[b], root@, user_id@, books@[k])
                        };
                    assert(is_last_good(books@, i + 1, k));
                }
            }
        }
        i += 1;
    }
    shelf
}

/// Whether the directory stands for a user with at least one readable book.
pub open spec fn contributes(user: UserStore) -> bool {
    &&& user_id_of(user.dir_name@) is Some
    &&& user.books is Some
    &&& exists|k: int| 0 <= k < user.books.unwrap()@.len() && is_good(#[trigger] user.books.unwrap()@[k])
}

/// Whether, among the first `n` directories, the one at `i` is the last
/// one that stands for its user and has a readable book.
pub open spec fn is_last_listed(users: Seq<UserStore>, n: int, i: int) -> bool {
    &&& 0 <= i < n
    &&& contributes(users[i])
    &&& forall|j: int|
        i < j < n ==> !(contributes(#[trigger] users[j]) && user_id_of(users[j].dir_name@)
            == user_id_of(users[i].dir_name@))
}

/// Whether `listing` holds the first `n` directories: one shelf for each
/// user with a readable book, made from the last such directory, and
/// nothing else. A directory whose name stands for no user, whose index
/// could not be read or that has no readable book leaves no trace.
pub open spec fn listing_holds(
    listing: Map<Seq<char>, serde_json::Value>,
    root: Seq<char>,
    users: Seq<UserStore>,
    n: int,
) -> bool {
    &&& forall|u: Seq<char>| #[trigger]
        listing.contains_key(u) ==> exists|i: int|
            {
                &&& #[trigger] is_last_listed(users, n, i)
                &&& user_id_of(users[i].dir_name@) == Some(u)
                &&& members_of(listing[u]) is Some
                &&& shelf_holds(
                    members_of(listing[u]).unwrap(),
                    root,
                    u,
                    users[i].books.unwrap()@,
                    users[i].books.unwrap()@.len() as int,
                )
            }
    &&& forall|i: int|
        0 <= i < n && contributes(#[trigger] users[i]) ==> listing.contains_key(
            user_id_of(users[i].dir_name@).unwrap(),
        )
}

/// Puts together the listing of all users.
pub fn build_listing(root: &str, users: &Vec<UserStore>) -> (listing: Listing)
    ensures
        listing.well_formed(),
        listing_holds(listing@, root@, users@, users@.len() as int),
{
    let mut listing = Listing::new();
    let mut i: usize = 0;
    while i < users.len()
        invariant
            i <= users@.len(),
            listing.well_formed(),
            listing_holds(listing@, root@, users@, i as int),
        decreases users@.len() - i,
    {
        let user = &users[i];
        let ghost before = listing@;
        let ghost mut added: bool = false;
        if let Some(user_id) = user_id_from_dir_name(user.dir_name.as_str()) {
            if let Some(books) = &user.books {
                let shelf = user_shelf(root, user_id.as_str(), books);
                proof {
                    shelf.lemma_value_members();
                    added = has_a_book(shelf.value());
                    if added {
                        let b = choose|b: Seq<char>| shelf@.contains_key(b);
                        assert(shelf@.contains_key(b));
                        let k = choose|k: int|
                            {
                                &&& #[trigger] is_last_good(books@, books@.len() as int, k)
                                &&& books@[k].book_id@ == b
                                &&& entry_fits(shelf@[b], root@, user_id@, books@[k])
                            };
                        assert(is_good(books@[k]));
                        assert(contributes(users@[i as int]));
                    } else {
                        assert forall|k: int| 0 <= k < books@.len() implies !is_good(
                            #[trigger] books@[k],
                        ) by {
                            if is_good(books@[k]) {
                                assert(shelf@.contains_key(books@[k].book_id@));
                                assert(members_of(shelf.value()).unwrap().contains_key(
                                    books@[k].book_id@,
                                ));
                                assert(has_a_book(shelf.value()));
                            }
                        }
                        assert(!contributes(users@[i as int]));
                    }
                }
                let ghost value = shelf.value();
                listing.add_user(user_id.as_str(), shelf);
                proof {
                    if added {
                        assert(listing@ == before.insert(user_id@, value));
                        assert(is_last_listed(users@, i + 1, i as int));
                    }
                }
            }
        }
        proof {
            assert(added == contributes(users@[i as int]));
            let id = user_id_of(users@[i as int].dir_name@);
            assert forall|u: Seq<char>| #[trigger] listing@.contains_key(u) implies exists|k: int|
                {
                    &&& #[trigger] is_last_listed(users@, i + 1, k)
                    &&& user_id_of(users@[k].dir_name@) == Some(u)
                    &&& members_of(listing@[u]) is Some
                    &&& shelf_holds(
                        members_of(listing@[u]).unwrap(),
                        root@,
                        u,
                        users@[k].books.unwrap()@,
                        users@[k].books.unwrap()@.len() as int,
                    )
                } by {
                if added && id == Some(u) {
                    assert(is_last_listed(users@, i + 1, i as int));
                } else {
                    assert(before.contains_key(u));
                    let k = choose|k: int|
                        {
                            &&& #[trigger] is_last_listed(users@, i as int, k)
                            &&& user_id_of(users@[k].dir_name@) == Some(u)
                            &&& members_of(before[u]) is Some
                            &&& shelf_holds(
                                members_of(before[u]).unwrap(),
                                root@,
                                u,
                                users@[k].books.unwrap()@,
                                users@[k].books.unwrap()@.len() as int,
                            )
                        };
                    assert(is_last_listed(users@, i + 1, k));
                }
            }
        }
        i += 1;
    }
    listing
}

/// A user none of whose directories gave a readable index is not listed,
/// whatever was read for the other users.
pub proof fn lemma_unreadable_user_is_left_out(
    listing: Map<Seq<char>, serde_json::Value>,
    root: Seq<char>,
    users: Seq<UserStore>,
    user_id: Seq<char>,
)
    requires
        listing_holds(listing, root, users, users.len() as int),
        forall|i: int|
            0 <= i < users.len() && user_id_of((#[trigger] users[i]).dir_name@) == Some(user_id)
                ==> users[i].books is None,
    ensures
        !listing.contains_key(user_id),
{
    if listing.contains_key(user_id) {
        let i = choose|i: int|
            {
                &&& #[trigger] is_last_listed(users, users.len() as int, i)
                &&& user_id_of(users[i].dir_name@) == Some(user_id)
            };
        assert(contributes(users[i]));
    }
}

/// A directory that stands for a user and has a readable book gets that
/// user listed, whatever was read for the other directories, and each
/// listed user has at least one book.
pub proof fn lemma_readable_user_is_listed(
    listing: Map<Seq<char>, serde_json::Value>,
    root: Seq<char>,
    users: Seq<UserStore>,
    i: int,
)
    requires
        listing_holds(listing, root, users, users.len() as int),
        0 <= i < users.len(),
        contributes(users[i]),
    ensures
        listing.contains_key(user_id_of(users[i].dir_name@).unwrap()),
        has_a_book(listing[user_id_of(users[i].dir_name@).unwrap()]),
{
    let u = user_id_of(users[i].dir_name@).unwrap();
    assert(listing.contains_key(u));
    let k = choose|k: int|
        {
            &&& #[trigger] is_last_listed(users, users.len() as int, k)
            &&& user_id_of(users[k].dir_name@) == Some(u)
            &&& members_of(listing[u]) is Some
            &&& shelf_holds(
                members_of(listing[u]).unwrap(),
                root,
                u,
                users[k].books.unwrap()@,
                users[k].books.unwrap()@.len() as int,
            )
        };
    assert(contributes(users[k]));
    let books = users[k].books.unwrap()@;
    let b = choose|b: int| 0 <= b < books.len() && is_good(#[trigger] books[b]);
    assert(members_of(listing[u]).unwrap().contains_key(books[b].book_id@));
}

/// The listing of the library as JSON text. `users` is what was read
/// below the users' directory, one item for each directory there, in the
/// order in which they were given; it is absent where the users' directory
/// is not there, and that is the one failure of the walk.
pub fn get_library(root: &str, users: Option<&Vec<UserStore>>) -> (r: Result<String, RuntimeError>)
    ensures
        users is None ==> r == Err::<String, RuntimeError>(RuntimeError::LibraryNotFound),
        users is Some ==> exists|listing: Listing|
            {
                &&& listing.well_formed()
                &&& #[trigger] listing_holds(
                    listing@,
                    root@,
                    users.unwrap()@,
                    users.unwrap()@.len() as int,
                )
                &&& match r {
                    Ok(text) => rendered(listing.value()) == Some(text@),
                    Err(e) => rendered(listing.value()) is None && e
                        == RuntimeError::NotSerializable,
                }
            },
{
    match users {
        None => Err(RuntimeError::LibraryNotFound),
        Some(users) => {
            let listing = build_listing(root, users);
            listing.to_json()
        },
    }
}

} // verus!
