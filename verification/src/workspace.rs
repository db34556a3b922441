//! Names of the files in the scratch workspace.

use std::collections::hash_map::DefaultHasher;
use std::hash::Hasher;
use vstd::prelude::*;
use vstd::std_specs::hash::DefaultHasherAdditionalSpecFns;
use crate::text::{chars_of, push_char, push_forward, push_hex, forward_slashes, hex};

verus! {

/// The name of the workspace's directory below the system's temporary
/// directory. It never changes.
pub const TEMP_DIR_NAME: &'static str = "ridi-re.ridicrypt.gui";

/// What the hash accumulator is fed for one text: its bytes, then one byte
/// that no text holds, so that two texts fed in a row keep their boundary.
pub open spec fn fed_for(s: Seq<char>) -> Seq<Seq<u8>> {
    seq![vstd::utf8::encode_utf8(s), seq![0xffu8]]
}

/// The 64-bit digest of a book and its owner: the book is fed first.
pub open spec fn pair_digest(book_id: Seq<char>, owner_id: Seq<char>) -> u64 {
    DefaultHasher::spec_finish(fed_for(book_id) + fed_for(owner_id))
}

/// The name of the decrypted copy of a book: sixteen hexadecimal digits of
/// the digest, then `.decrypted.` and the format.
pub open spec fn temp_file_name(book_id: Seq<char>, owner_id: Seq<char>, format: Seq<char>) -> Seq<
    char,
> {
    hex(pair_digest(book_id, owner_id) as int, 16) + ".decrypted."@ + format
}

/// `dir` and `name` put together with one separator between them, unless
/// `dir` is empty or already ends in one; every backslash counts as a
/// separator and becomes a forward slash.
pub open spec fn joined(dir: Seq<char>, name: Seq<char>) -> Seq<char> {
    if dir.len() == 0 || dir.last() == '/' || dir.last() == '\\' {
        forward_slashes(dir) + forward_slashes(name)
    } else {
        forward_slashes(dir) + seq!['/'] + forward_slashes(name)
    }
}

/// The workspace's directory below `system_temp`.
pub open spec fn temp_dir(system_temp: Seq<char>) -> Seq<char> {
    joined(system_temp, TEMP_DIR_NAME@)
}

/// The path of the decrypted copy of a book in the workspace.
pub open spec fn temp_book_path(
    system_temp: Seq<char>,
    book_id: Seq<char>,
    owner_id: Seq<char>,
    format: Seq<char>,
) -> Seq<char> {
    joined(temp_dir(system_temp), temp_file_name(book_id, owner_id, format))
}

/// Feeds one text to the accumulator.
fn feed(hasher: &mut DefaultHasher, s: &str)
    ensures
        final(hasher)@ == old(hasher)@ + fed_for(s@),
{
    let bytes = s.as_bytes();
    hasher.write(bytes);
    let mut end: Vec<u8> = Vec::new();
    end.push(0xffu8);
    assert(end@ =~= seq![0xffu8]);
    hasher.write(end.as_slice());
    assert(hasher@ == old(hasher)@.push(bytes@).push(end@));
    assert(hasher@ =~= old(hasher)@ + fed_for(s@));
}

/// Computes the digest of a book and its owner.
pub fn digest(book_id: &str, owner_id: &str) -> (h: u64)
    ensures
        h == pair_digest(book_id@, owner_id@),
{
    let mut hasher = DefaultHasher::new();
    feed(&mut hasher, book_id);
    feed(&mut hasher, owner_id);
    assert(hasher@ =~= fed_for(book_id@) + fed_for(owner_id@));
    hasher.finish()
}

/// The path of a book's decrypted copy depends on nothing but the system's
/// temporary directory, the book, its owner and the format: the same four
/// texts give the same path.
pub proof fn lemma_temp_path_deterministic(
    system_temp: Seq<char>,
    book_id: Seq<char>,
    owner_id: Seq<char>,
    format: Seq<char>,
    system_temp2: Seq<char>,
    book_id2: Seq<char>,
    owner_id2: Seq<char>,
    format2: Seq<char>,
)
    requires
        system_temp == system_temp2,
        book_id == book_id2,
        owner_id == owner_id2,
        format == format2,
    ensures
        temp_book_path(system_temp, book_id, owner_id, format) == temp_book_path(
            system_temp2,
            book_id2,
            owner_id2,
            format2,
        ),
{
}

/// The accumulator is fed in order: with the book and the owner swapped it
/// is fed something else, unless the two are the same text.
pub proof fn lemma_swap_changes_feed(book_id: Seq<char>, owner_id: Seq<char>)
    requires
        book_id != owner_id,
    ensures
        fed_for(book_id) + fed_for(owner_id) != fed_for(owner_id) + fed_for(book_id),
{
    let a = fed_for(book_id) + fed_for(owner_id);
    let b = fed_for(owner_id) + fed_for(book_id);
    assert(a[0] == vstd::utf8::encode_utf8(book_id));
    assert(b[0] == vstd::utf8::encode_utf8(owner_id));
    vstd::utf8::encode_utf8_decode_utf8(book_id);
    vstd::utf8::encode_utf8_decode_utf8(owner_id);
}

/// Puts a directory and a name together, with forward slashes throughout.
pub fn join(dir: &str, name: &str) -> (path: String)
    ensures
        path@ == joined(dir@, name@),
{
    let d = chars_of(dir);
    let n = chars_of(name);
    let mut path = String::new();
    push_forward(&mut path, &d);
    if d.len() > 0 && d[d.len() - 1] != '/' && d[d.len() - 1] != '\\' {
        push_char(&mut path, '/');
    }
    push_forward(&mut path, &n);
    assert(path@ =~= joined(dir@, name@));
    path
}

/// The workspace's directory below the system's temporary directory.
pub fn get_temp_dir(system_temp: &str) -> (dir: String)
    ensures
        dir@ == temp_dir(system_temp@),
{
    join(system_temp, TEMP_DIR_NAME)
}

/// The path in the workspace at which the decrypted copy of a book is
/// kept. It depends on nothing but the four texts.
pub fn get_temp_book_path(system_temp: &str, book_id: &str, owner_id: &str, format: &str) -> (path:
    String)
    ensures
        path@ == temp_book_path(system_temp@, book_id@, owner_id@, format@),
{
    let dir = get_temp_dir(system_temp);
    let mut name = String::new();
    push_hex(&mut name, digest(book_id, owner_id), 16);
    name.append(".decrypted.");
    name.append(format);
    assert(name@ =~= temp_file_name(book_id@, owner_id@, format@));
    join(dir.as_str(), name.as_str())
}

} // verus!
