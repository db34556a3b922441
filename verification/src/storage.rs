//! What a book's directory says of its files.

use vstd::prelude::*;
use crate::text::{chars_of, push_decimal, begins, ends, holds, contains_text, starts_with, ends_with, decimal};

verus! {

/// One entry of a directory: its name, and when it was created, in seconds
/// since 1970, where that could be read.
#[derive(Clone, Debug)]
pub struct DirEntry {
    pub name: String,
    pub created_secs: Option<u64>,
}

/// What was found at a book's base path.
#[derive(Clone, Debug)]
pub enum DirListing {
    /// Nothing is there, or what is there is no directory.
    Absent,
    /// A directory that could not be listed.
    Unreadable,
    /// The directory's entries, in the order in which it gave them.
    Entries(Vec<DirEntry>),
}

/// The files of a book.
#[derive(Clone, Debug)]
pub struct StorageFiles {
    pub filename: String,
    pub key_filename: String,
    pub create_time: String,
}

/// Where a book is kept and which files it has. `files` is absent only for
/// a directory that could not be listed.
#[derive(Clone, Debug)]
pub struct StorageInfo {
    pub base_path: String,
    pub files: Option<StorageFiles>,
}

/// The format of a book whose metadata names none.
pub const DEFAULT_FORMAT: &'static str = "epub";

/// Whether an entry is the content file of the book: it begins with the
/// book's identifier, ends in a dot and the format, and is no decrypted copy.
pub open spec fn is_content_name(name: Seq<char>, book_id: Seq<char>, format: Seq<char>) -> bool {
    &&& !contains_text(name, ".decrypted."@)
    &&& starts_with(name, book_id)
    &&& ends_with(name, seq!['.'] + format)
}

/// Whether an entry is the key file of the book: it begins with the book's
/// identifier and ends in `.dat`.
pub open spec fn is_key_name(name: Seq<char>, book_id: Seq<char>) -> bool {
    &&& starts_with(name, book_id)
    &&& ends_with(name, ".dat"@)
}

/// Whether `at` is the first entry that is the book's content file, or
/// absent where there is none.
pub open spec fn is_first_content(
    entries: Seq<DirEntry>,
    book_id: Seq<char>,
    format: Seq<char>,
    at: Option<usize>,
) -> bool {
    match at {
        Some(i) => {
            &&& i < entries.len()
            &&& is_content_name(entries[i as int].name@, book_id, format)
            &&& forall|j: int|
                0 <= j < i ==> !is_content_name((#[trigger] entries[j]).name@, book_id, format)
        },
        None => forall|j: int|
            0 <= j < entries.len() ==> !is_content_name(
                (#[trigger] entries[j]).name@,
                book_id,
                format,
            ),
    }
}

/// Whether `at` is the first entry that is the book's key file, or absent
/// where there is none.
pub open spec fn is_first_key(entries: Seq<DirEntry>, book_id: Seq<char>, at: Option<usize>) -> bool {
    match at {
        Some(i) => {
            &&& i < entries.len()
            &&& is_key_name(entries[i as int].name@, book_id)
            &&& forall|j: int| 0 <= j < i ==> !is_key_name((#[trigger] entries[j]).name@, book_id)
        },
        None => forall|j: int|
            0 <= j < entries.len() ==> !is_key_name((#[trigger] entries[j]).name@, book_id),
    }
}

/// The two entries that a scan looks for.
#[derive(Clone, Debug)]
pub struct Found {
    pub content: Option<usize>,
    pub key: Option<usize>,
}

/// The name of the entry at `at`, or the empty text.
pub open spec fn name_at(entries: Seq<DirEntry>, at: Option<usize>) -> Seq<char> {
    match at {
        Some(i) => entries[i as int].name@,
        None => Seq::empty(),
    }
}

/// The creation time of the entry at `at` in decimal digits, or the empty
/// text where there is no entry or its time could not be read.
pub open spec fn created_at(entries: Seq<DirEntry>, at: Option<usize>) -> Seq<char> {
    match at {
        Some(i) => match entries[i as int].created_secs {
            Some(t) => decimal(t as int),
            None => Seq::empty(),
        },
        None => Seq::empty(),
    }
}

/// Whether `files` is what the entries say of the book.
pub open spec fn files_match(
    entries: Seq<DirEntry>,
    book_id: Seq<char>,
    format: Seq<char>,
    files: StorageFiles,
) -> bool {
    exists|content: Option<usize>, key: Option<usize>|
        {
            &&& is_first_content(entries, book_id, format, content)
            &&& is_first_key(entries, book_id, key)
            &&& files.filename@ == name_at(entries, content)
            &&& files.key_filename@ == name_at(entries, key)
            &&& files.create_time@ == created_at(entries, content)
        }
}

/// Whether `info` is what the listing says of the book kept at `base_path`.
pub open spec fn storage_matches(
    listing: DirListing,
    base_path: Seq<char>,
    book_id: Seq<char>,
    format: Seq<char>,
    info: StorageInfo,
) -> bool {
    &&& info.base_path@ == base_path
    &&& match listing {
        DirListing::Absent => {
            &&& info.files is Some
            &&& info.files.unwrap().filename@.len() == 0
            &&& info.files.unwrap().key_filename@.len() == 0
            &&& info.files.unwrap().create_time@.len() == 0
        },
        DirListing::Unreadable => info.files is None,
        DirListing::Entries(entries) => {
            &&& info.files is Some
            &&& files_match(entries@, book_id, format, info.files.unwrap())
        },
    }
}

/// Goes through the entries once, in their order, and finds the first
/// content file and the first key file of the book.
pub fn scan_entries(entries: &Vec<DirEntry>, book_id: &str, format: &str) -> (found: Found)
    ensures
        is_first_content(entries@, book_id@, format@, found.content),
        is_first_key(entries@, book_id@, found.key),
{
    let id = chars_of(book_id);
    let marker = chars_of(".decrypted.");
    let key_end = chars_of(".dat");
    let mut content_end: Vec<char> = Vec::new();
    content_end.push('.');
    let mut fmt = chars_of(format);
    content_end.append(&mut fmt);
    assert(content_end@ =~= seq!['.'] + format@);
    let mut found = Found { content: None, key: None };
    let mut i: usize = 0;
    while i < entries.len() && (found.content.is_none() || found.key.is_none())
        invariant
            i <= entries@.len(),
            id@ == book_id@,
            marker@ == ".decrypted."@,
            key_end@ == ".dat"@,
            content_end@ == seq!['.'] + format@,
            match found.content {
                Some(k) => k < i && is_first_content(entries@, book_id@, format@, found.content),
                None => forall|j: int|
                    0 <= j < i ==> !is_content_name(
                        (#[trigger] entries@[j]).name@,
                        book_id@,
                        format@,
                    ),
            },
            match found.key {
                Some(k) => k < i && is_first_key(entries@, book_id@, found.key),
                None => forall|j: int|
                    0 <= j < i ==> !is_key_name((#[trigger] entries@[j]).name@, book_id@),
            },
        decreases entries@.len() - i,
    {
        let name = chars_of(entries[i].name.as_str());
        let ours: bool = begins(&name, &id);
        if found.content.is_none() && ours && ends(&name, &content_end) && !holds(&name, &marker) {
            found.content = Some(i);
        }
        if found.key.is_none() && ours && ends(&name, &key_end) {
            found.key = Some(i);
        }
        i += 1;
    }
    found
}

/// What the listing of a book's directory says of its files.
pub fn storage_info(listing: &DirListing, base_path: String, book_id: &str, format: &str) -> (info:
    StorageInfo)
    ensures
        storage_matches(*listing, base_path@, book_id@, format@, info),
{
    match listing {
        DirListing::Absent => StorageInfo {
            base_path,
            files: Some(
                StorageFiles {
                    filename: String::new(),
                    key_filename: String::new(),
                    create_time: String::new(),
                },
            ),
        },
        DirListing::Unreadable => StorageInfo { base_path, files: None },
        DirListing::Entries(entries) => {
            let found = scan_entries(entries, book_id, format);
            let mut filename = String::new();
            let mut create_time = String::new();
            if let Some(i) = found.content {
                filename = entries[i].name.clone();
                if let Some(t) = entries[i].created_secs {
                    push_decimal(&mut create_time, t);
                    assert(create_time@ =~= decimal(t as int));
                }
            }
            let mut key_filename = String::new();
            if let Some(k) = found.key {
                key_filename = entries[k].name.clone();
            }
            let files = StorageFiles { filename, key_filename, create_time };
            assert(files_match(entries@, book_id@, format@, files)) by {
                assert(files.filename@ == name_at(entries@, found.content));
                assert(files.key_filename@ == name_at(entries@, found.key));
                assert(files.create_time@ == created_at(entries@, found.content));
            }
            StorageInfo { base_path, files: Some(files) }
        },
    }
}

} // verus!
