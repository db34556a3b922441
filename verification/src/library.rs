//! The rules by which the listing of the library is put together from the
//! decrypted index and metadata of each user.

use vstd::prelude::*;
use crate::error::RuntimeError;
use crate::json::{
    parse, member, as_text, elements, is_object, copy_of, empty_object, text_value, set_member,
    render, parsed, member_of, members_of, elements_of, string_of, rendered,
};
use crate::storage::{DirListing, StorageInfo, storage_info, storage_matches, DEFAULT_FORMAT};
use crate::workspace::{join, joined};

verus! {

/// The name under which a user's index of books is kept, and for which
/// its key is derived.
pub const INDEX_NAME: &'static str = "DownloadBookAll";

/// The directory of a user that holds the metadata of each book.
pub const BOOK_META_DIR: &'static str = "BOOK_META";

/// The directory below the vendor's root that holds the users' stores.
pub const USERS_DIR: &'static str = "datastores/user";

/// The views of a sequence of texts.
pub open spec fn texts(v: Seq<String>) -> Seq<Seq<char>> {
    Seq::new(v.len(), |i: int| v[i]@)
}

/// The identifier of the book that an entry of the index names: the text
/// under `bId`.
pub open spec fn book_id_in(item: serde_json::Value) -> Option<Seq<char>> {
    match member_of(item, "bId"@) {
        Some(id) => string_of(id),
        None => None,
    }
}

/// The identifiers that the entries name, in their order; an entry that
/// names none is passed over.
pub open spec fn book_ids_in(items: Seq<serde_json::Value>) -> Seq<Seq<char>>
    decreases items.len(),
{
    if items.len() == 0 {
        Seq::empty()
    } else {
        match book_id_in(items.last()) {
            Some(id) => book_ids_in(items.drop_last()).push(id),
            None => book_ids_in(items.drop_last()),
        }
    }
}

/// The books that the text of a user's index names: those of the array
/// under `data`. Absent where the text is no JSON or holds no such array.
pub open spec fn index_ids(index_text: Seq<char>) -> Option<Seq<Seq<char>>> {
    match parsed(index_text) {
        Some(index) => match member_of(index, "data"@) {
            Some(data) => match elements_of(data) {
                Some(items) => Some(book_ids_in(items)),
                None => None,
            },
            None => None,
        },
        None => None,
    }
}

/// Reads the books of a user off the text of their index. Where nothing
/// comes back the user is left out of the listing.
pub fn index_book_ids(index_text: &str) -> (ids: Option<Vec<String>>)
    ensures
        match ids {
            Some(v) => index_ids(index_text@) == Some(texts(v@)),
            None => index_ids(index_text@) is None,
        },
{
    let index = match parse(index_text) {
        Ok(v) => v,
        Err(_) => {
            return None;
        },
    };
    let data = match member(&index, "data") {
        Some(d) => d,
        None => {
            return None;
        },
    };
    let items = match elements(data) {
        Some(a) => a,
        None => {
            return None;
        },
    };
    let mut ids: Vec<String> = Vec::new();
    let mut i: usize = 0;
    assert(items@.subrange(0, 0) =~= Seq::empty());
    assert(texts(ids@) =~= book_ids_in(items@.subrange(0, 0)));
    while i < items.len()
        invariant
            i <= items@.len(),
            texts(ids@) == book_ids_in(items@.subrange(0, i as int)),
        decreases items@.len() - i,
    {
        let ghost before = ids@;
        proof {
            let upto = items@.subrange(0, i + 1);
            assert(upto.drop_last() =~= items@.subrange(0, i as int));
            assert(upto.last() == items@[i as int]);
        }
        if let Some(id_value) = member(&items[i], "bId") {
            if let Some(id) = as_text(id_value) {
                ids.push(String::from_str(id));
                assert(texts(ids@) =~= texts(before).push(id@));
            }
        }
        i += 1;
    }
    assert(items@.subrange(0, items@.len() as int) =~= items@);
    Some(ids)
}

/// The part of a book's metadata that goes into the listing: the object
/// under `data`. Absent where the text is no JSON or holds no such object.
pub open spec fn book_data_in(meta_text: Seq<char>) -> Option<serde_json::Value> {
    match parsed(meta_text) {
        Some(meta) => match member_of(meta, "data"@) {
            Some(data) => if members_of(data) is Some {
                Some(data)
            } else {
                None
            },
            None => None,
        },
        None => None,
    }
}

/// Reads the listed part of a book's metadata off its text. Where nothing
/// comes back the book is left out of the listing.
pub fn book_data(meta_text: &str) -> (data: Option<serde_json::Value>)
    ensures
        data == book_data_in(meta_text@),
{
    match parse(meta_text) {
        Err(_) => None,
        Ok(meta) => match member(&meta, "data") {
            None => None,
            Some(data) => if is_object(data) {
                Some(copy_of(data))
            } else {
                None
            },
        },
    }
}

/// The format of a book's content: the text under `file`, `format`, and
/// `epub` where there is none.
pub open spec fn format_in(data: serde_json::Value) -> Seq<char> {
    match member_of(data, "file"@) {
        Some(file) => match member_of(file, "format"@) {
            Some(format) => match string_of(format) {
                Some(s) => s,
                None => DEFAULT_FORMAT@,
            },
            None => DEFAULT_FORMAT@,
        },
        None => DEFAULT_FORMAT@,
    }
}

/// Reads the format of a book's content off its metadata.
pub fn book_format(data: &serde_json::Value) -> (format: String)
    ensures
        format@ == format_in(*data),
{
    if let Some(file) = member(data, "file") {
        if let Some(format) = member(file, "format") {
            if let Some(s) = as_text(format) {
                return String::from_str(s);
            }
        }
    }
    String::from_str(DEFAULT_FORMAT)
}

/// Where the files of a user's book are kept below the vendor's root.
pub open spec fn base_path_of(root: Seq<char>, user_id: Seq<char>, book_id: Seq<char>) -> Seq<char> {
    joined(joined(joined(root, "library"@), seq!['_'] + user_id), book_id)
}

/// The directory of a user's book below the vendor's root, with forward
/// slashes throughout.
pub fn book_base_path(root: &str, user_id: &str, book_id: &str) -> (path: String)
    ensures
        path@ == base_path_of(root@, user_id@, book_id@),
{
    let library = join(root, "library");
    let mut user_dir = String::new();
    crate::text::push_char(&mut user_dir, '_');
    user_dir.append(user_id);
    assert(user_dir@ =~= seq!['_'] + user_id@);
    let user = join(library.as_str(), user_dir.as_str());
    join(user.as_str(), book_id)
}

/// Whether `v` is the object that stands for `info` in the listing: the
/// base path and, unless the directory could not be listed, the three
/// names, each as a text.
pub open spec fn is_storage_value(v: serde_json::Value, info: StorageInfo) -> bool {
    match members_of(v) {
        None => false,
        Some(m) => {
            &&& m.contains_key("basePath"@)
            &&& string_of(m["basePath"@]) == Some(info.base_path@)
            &&& match info.files {
                None => m.dom() =~= set!["basePath"@],
                Some(files) => {
                    &&& m.dom() =~= set![
                        "basePath"@,
                        "filename"@,
                        "keyFilename"@,
                        "createTime"@,
                    ]
                    &&& string_of(m["filename"@]) == Some(files.filename@)
                    &&& string_of(m["keyFilename"@]) == Some(files.key_filename@)
                    &&& string_of(m["createTime"@]) == Some(files.create_time@)
                },
            }
        },
    }
}

/// The four keys of a storage object are four different texts.
proof fn lemma_keys_differ()
    ensures
        "basePath"@ != "filename"@,
        "basePath"@ != "keyFilename"@,
        "basePath"@ != "createTime"@,
        "filename"@ != "keyFilename"@,
        "filename"@ != "createTime"@,
        "keyFilename"@ != "createTime"@,
{
    reveal_strlit("basePath");
    reveal_strlit("filename");
    reveal_strlit("keyFilename");
    reveal_strlit("createTime");
    assert("basePath"@[0] == 'b');
    assert("filename"@[0] == 'f');
    assert("basePath"@.len() == 8);
    assert("filename"@.len() == 8);
    assert("keyFilename"@.len() == 11);
    assert("createTime"@.len() == 10);
}

/// Writes what is known of a book's files as the object that the listing
/// holds.
pub fn storage_value(info: StorageInfo) -> (v: serde_json::Value)
    ensures
        is_storage_value(v, info),
{
    let mut v = empty_object();
    let StorageInfo { base_path, files } = info;
    proof {
        lemma_keys_differ();
    }
    set_member(&mut v, String::from_str("basePath"), text_value(base_path));
    if let Some(f) = files {
        set_member(&mut v, String::from_str("filename"), text_value(f.filename));
        set_member(&mut v, String::from_str("keyFilename"), text_value(f.key_filename));
        set_member(&mut v, String::from_str("createTime"), text_value(f.create_time));
    }
    v
}

/// Whether `record` is `data` with the storage object of `info` under
/// `storage`, in place of what stood there.
pub open spec fn is_record(record: serde_json::Value, data: serde_json::Value, info: StorageInfo) -> bool {
    &&& members_of(data) is Some
    &&& members_of(record) is Some
    &&& members_of(record).unwrap().contains_key("storage"@)
    &&& is_storage_value(members_of(record).unwrap()["storage"@], info)
    &&& members_of(record).unwrap() == members_of(data).unwrap().insert(
        "storage"@,
        members_of(record).unwrap()["storage"@],
    )
}

/// Whether `record` is what the listing holds for a book with this
/// metadata whose directory, at `base_path`, gave this listing.
pub open spec fn is_book_entry(
    record: serde_json::Value,
    meta_text: Seq<char>,
    base_path: Seq<char>,
    book_id: Seq<char>,
    listing: DirListing,
) -> bool {
    &&& book_data_in(meta_text) is Some
    &&& exists|info: StorageInfo|
        {
            &&& storage_matches(
                listing,
                base_path,
                book_id,
                format_in(book_data_in(meta_text).unwrap()),
                info,
            )
            &&& #[trigger] is_record(record, book_data_in(meta_text).unwrap(), info)
        }
}

/// The record of one book: the listed part of its metadata, with what its
/// directory says of its files under `storage`. Where the metadata cannot
/// be read nothing comes back, and the book is left out of the listing.
pub fn book_entry(meta_text: &str, base_path: String, book_id: &str, listing: &DirListing) -> (record:
    Option<serde_json::Value>)
    ensures
        match record {
            Some(r) => is_book_entry(r, meta_text@, base_path@, book_id@, *listing),
            None => book_data_in(meta_text@) is None,
        },
{
    let mut data = match book_data(meta_text) {
        Some(d) => d,
        None => {
            return None;
        },
    };
    let ghost bare = data;
    let format = book_format(&data);
    let info = storage_info(listing, base_path, book_id, format.as_str());
    let ghost kept = info;
    let sv = storage_value(info);
    set_member(&mut data, String::from_str("storage"), sv);
    assert(is_record(data, bare, kept));
    Some(data)
}

/// The books of one user, by their identifiers.
pub struct Shelf {
    books: serde_json::Value,
    any: bool,
}

impl View for Shelf {
    type V = Map<Seq<char>, serde_json::Value>;

    closed spec fn view(&self) -> Map<Seq<char>, serde_json::Value> {
        members_of(self.books).unwrap()
    }
}

impl Shelf {
    /// The shelf holds an object, and knows whether it holds a book.
    pub closed spec fn well_formed(self) -> bool {
        &&& members_of(self.books) is Some
        &&& self.any <==> exists|id: Seq<char>| self@.contains_key(id)
    }

    /// The object that stands for the shelf in the listing.
    pub closed spec fn value(self) -> serde_json::Value {
        self.books
    }

    /// The object that stands for a shelf has the shelf's books as members.
    pub proof fn lemma_value_members(self)
        requires
            self.well_formed(),
        ensures
            members_of(self.value()) == Some(self@),
    {
    }

    /// A shelf without books.
    pub fn new() -> (s: Self)
        ensures
            s.well_formed(),
            s@ == Map::<Seq<char>, serde_json::Value>::empty(),
    {
        Shelf { books: empty_object(), any: false }
    }

    /// Whether the shelf holds no book.
    pub fn is_empty(&self) -> (r: bool)
        requires
            self.well_formed(),
        ensures
            r <==> forall|id: Seq<char>| !self@.contains_key(id),
    {
        !self.any
    }

    /// Puts a book's record on the shelf, in place of an earlier one under
    /// the same identifier.
    pub fn put(&mut self, book_id: &str, record: serde_json::Value)
        requires
            old(self).well_formed(),
        ensures
            final(self).well_formed(),
            final(self)@ == old(self)@.insert(book_id@, record),
    {
        set_member(&mut self.books, String::from_str(book_id), record);
        self.any = true;
        assert(self@.contains_key(book_id@));
    }
}

/// The listing: for each user with at least one book, that user's shelf.
pub struct Listing {
    users: serde_json::Value,
}

impl View for Listing {
    type V = Map<Seq<char>, serde_json::Value>;

    closed spec fn view(&self) -> Map<Seq<char>, serde_json::Value> {
        members_of(self.users).unwrap()
    }
}

impl Listing {
    /// The listing holds an object, and under each user an object with at
    /// least one book.
    pub closed spec fn well_formed(self) -> bool {
        &&& members_of(self.users) is Some
        &&& forall|user: Seq<char>| #[trigger]
            self@.contains_key(user) ==> has_a_book(self@[user])
    }

    /// The object that stands for the whole listing.
    pub closed spec fn value(self) -> serde_json::Value {
        self.users
    }

    /// A listing without users.
    pub fn new() -> (l: Self)
        ensures
            l.well_formed(),
            l@ == Map::<Seq<char>, serde_json::Value>::empty(),
    {
        Listing { users: empty_object() }
    }

    /// Takes a user's shelf into the listing, unless it is empty: a user
    /// without books is not listed.
    pub fn add_user(&mut self, user_id: &str, shelf: Shelf)
        requires
            old(self).well_formed(),
            shelf.well_formed(),
        ensures
            final(self).well_formed(),
            final(self)@ == if has_a_book(shelf.value()) {
                old(self)@.insert(user_id@, shelf.value())
            } else {
                old(self)@
            },
    {
        if !shelf.any {
            assert forall|id: Seq<char>| !members_of(shelf.books).unwrap().contains_key(id) by {
                assert(!shelf@.contains_key(id));
            }
            return ;
        }
        proof {
            let id = choose|id: Seq<char>| shelf@.contains_key(id);
            assert(members_of(shelf.books).unwrap().contains_key(id));
            assert(has_a_book(shelf.books));
        }
        set_member(&mut self.users, String::from_str(user_id), shelf.books);
        assert forall|user: Seq<char>| #[trigger] self@.contains_key(user) implies has_a_book(
            self@[user],
        ) by {
            if user != user_id@ {
                assert(old(self)@.contains_key(user));
            }
        }
    }

    /// Every user of a listing has a book.
    pub proof fn lemma_no_empty_user(self, user: Seq<char>)
        requires
            self.well_formed(),
            self@.contains_key(user),
        ensures
            has_a_book(self@[user]),
    {
    }

    /// The listing as JSON text.
    pub fn to_json(&self) -> (r: Result<String, RuntimeError>)
        requires
            self.well_formed(),
        ensures
            match r {
                Ok(s) => rendered(self.value()) == Some(s@),
                Err(e) => rendered(self.value()) is None && e == RuntimeError::NotSerializable,
            },
    {
        match render(&self.users) {
            Ok(s) => Ok(s),
            Err(_) => Err(RuntimeError::NotSerializable),
        }
    }
}

/// Whether `v` is an object with at least one member.
pub open spec fn has_a_book(v: serde_json::Value) -> bool {
    members_of(v) is Some && exists|id: Seq<char>| members_of(v).unwrap().contains_key(id)
}

} // verus!
