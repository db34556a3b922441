//! Which directory names stand for a user.

use vstd::prelude::*;
use crate::text::{chars_of, text_of};

verus! {

/// Whether every character is one of `0` to `9`. It holds of the empty text.
pub open spec fn all_digits(s: Seq<char>) -> bool {
    forall|i: int| 0 <= i < s.len() ==> '0' <= #[trigger] s[i] <= '9'
}

/// The name without one leading underscore, where it has one.
pub open spec fn without_underscore(name: Seq<char>) -> Seq<char> {
    if name.len() > 0 && name[0] == '_' {
        name.subrange(1, name.len() as int)
    } else {
        name
    }
}

/// The user that a directory name stands for, if any.
pub open spec fn user_id_of(name: Seq<char>) -> Option<Seq<char>> {
    if all_digits(without_underscore(name)) {
        Some(without_underscore(name))
    } else {
        None
    }
}

/// A user's identifier holds digits only, and the directory name is the
/// identifier itself or the identifier behind one underscore.
pub proof fn lemma_user_id_shape(name: Seq<char>)
    requires
        user_id_of(name) is Some,
    ensures
        all_digits(user_id_of(name).unwrap()),
        name == user_id_of(name).unwrap() || name == seq!['_'] + user_id_of(name).unwrap(),
{
    let id = user_id_of(name).unwrap();
    if name.len() > 0 && name[0] == '_' {
        assert(name =~= seq!['_'] + id);
    }
}

/// Reads a user's identifier off a directory name: one leading underscore
/// is dropped, and what is left must hold digits only.
///
/// A name that is a lone underscore leaves nothing, and nothing holds
/// digits only: such a name is accepted, with the empty identifier.
pub fn user_id_from_dir_name(name: &str) -> (id: Option<String>)
    ensures
        match id {
            Some(s) => user_id_of(name@) == Some(s@),
            None => user_id_of(name@) is None,
        },
{
    let v = chars_of(name);
    let from: usize = if v.len() > 0 && v[0] == '_' { 1 } else { 0 };
    let ghost rest = without_underscore(name@);
    assert(rest == v@.subrange(from as int, v@.len() as int)) by {
        assert(v@.subrange(0, v@.len() as int) =~= v@);
    }
    let mut i: usize = from;
    while i < v.len()
        invariant
            from <= i <= v@.len(),
            rest == v@.subrange(from as int, v@.len() as int),
            rest == without_underscore(name@),
            forall|j: int| 0 <= j < i - from ==> '0' <= #[trigger] rest[j] <= '9',
        decreases v@.len() - i,
    {
        let c: char = v[i];
        if !('0' <= c && c <= '9') {
            assert(rest[i - from] == c);
            return None;
        }
        i += 1;
    }
    Some(text_of(&v, from, v.len()))
}

} // verus!
