//! Small operations on text, stated over sequences of characters.

use vstd::prelude::*;
use vstd::string::StringSliceAdditionalSpecFns;
use vstd::utf8::is_char_boundary;

verus! {

/// Calls `String::push` of std: the character is added at the end and
/// nothing else changes.
#[verifier::external_body]
pub(crate) fn push_char(s: &mut String, c: char)
    ensures
        final(s)@ == old(s)@.push(c),
{
    s.push(c)
}

/// The characters of `s`, in order.
pub fn chars_of(s: &str) -> (v: Vec<char>)
    ensures
        v@ == s@,
{
    let n: usize = s.unicode_len();
    let mut v: Vec<char> = Vec::new();
    let mut i: usize = 0;
    while i < n
        invariant
            n == s@.len(),
            i <= n,
            v@ == s@.subrange(0, i as int),
        decreases n - i,
    {
        v.push(s.get_char(i));
        i += 1;
        assert(v@ =~= s@.subrange(0, i as int));
    }
    assert(s@.subrange(0, n as int) =~= s@);
    v
}

/// The text made of the characters of `v[from..to]`.
pub fn text_of(v: &Vec<char>, from: usize, to: usize) -> (s: String)
    requires
        from <= to <= v@.len(),
    ensures
        s@ == v@.subrange(from as int, to as int),
{
    let mut s = String::new();
    let mut i: usize = from;
    while i < to
        invariant
            from <= i <= to <= v@.len(),
            s@ == v@.subrange(from as int, i as int),
        decreases to - i,
    {
        push_char(&mut s, v[i]);
        i += 1;
        assert(s@ =~= v@.subrange(from as int, i as int));
    }
    s
}

/// Whether `part` stands in `whole` from position `at` on.
pub open spec fn occurs_at(whole: Seq<char>, part: Seq<char>, at: int) -> bool {
    &&& 0 <= at
    &&& at + part.len() <= whole.len()
    &&& whole.subrange(at, at + part.len()) == part
}

/// Whether `part` stands somewhere in `whole`.
pub open spec fn contains_text(whole: Seq<char>, part: Seq<char>) -> bool {
    exists|at: int| occurs_at(whole, part, at)
}

/// Whether `whole` begins with `part`.
pub open spec fn starts_with(whole: Seq<char>, part: Seq<char>) -> bool {
    occurs_at(whole, part, 0)
}

/// Whether `whole` ends with `part`.
pub open spec fn ends_with(whole: Seq<char>, part: Seq<char>) -> bool {
    occurs_at(whole, part, whole.len() - part.len())
}

/// Tests whether `part` stands in `whole` at `at`.
pub fn has_at(whole: &Vec<char>, part: &Vec<char>, at: usize) -> (r: bool)
    ensures
        r == occurs_at(whole@, part@, at as int),
{
    if at > whole.len() || part.len() > whole.len() - at {
        return false;
    }
    let mut k: usize = 0;
    while k < part.len()
        invariant
            at + part@.len() <= whole@.len() <= usize::MAX,
            k <= part@.len(),
            forall|j: int| 0 <= j < k ==> whole@[at + j] == part@[j],
        decreases part@.len() - k,
    {
        if whole[at + k] != part[k] {
            proof {
                let w = whole@.subrange(at as int, at + part@.len());
                assert(w[k as int] == whole@[at + k]);
            }
            return false;
        }
        k += 1;
    }
    assert(whole@.subrange(at as int, at + part@.len()) =~= part@);
    true
}

/// Tests whether `whole` begins with `part`.
pub fn begins(whole: &Vec<char>, part: &Vec<char>) -> (r: bool)
    ensures
        r == starts_with(whole@, part@),
{
    has_at(whole, part, 0)
}

/// Tests whether `whole` ends with `part`.
pub fn ends(whole: &Vec<char>, part: &Vec<char>) -> (r: bool)
    ensures
        r == ends_with(whole@, part@),
{
    if part.len() > whole.len() {
        return false;
    }
    has_at(whole, part, whole.len() - part.len())
}

/// Tests whether `part` stands somewhere in `whole`.
pub fn holds(whole: &Vec<char>, part: &Vec<char>) -> (r: bool)
    ensures
        r == contains_text(whole@, part@),
{
    if part.len() > whole.len() {
        return false;
    }
    if part.len() == 0 {
        assert(whole@.subrange(0, 0) =~= part@);
        assert(occurs_at(whole@, part@, 0));
        return true;
    }
    let last: usize = whole.len() - part.len();
    let mut at: usize = 0;
    while at <= last
        invariant
            last == whole@.len() - part@.len(),
            last < usize::MAX,
            at <= last + 1,
            forall|j: int| 0 <= j < at ==> !occurs_at(whole@, part@, j),
        decreases last + 1 - at,
    {
        if has_at(whole, part, at) {
            return true;
        }
        at += 1;
    }
    false
}

/// Whether the bytes from `from` up to `to` can be cut out of a text with
/// the bytes `bytes`: both ends lie in it, in this order, and neither falls
/// inside a character.
pub open spec fn can_cut(bytes: Seq<u8>, from: int, to: int) -> bool {
    &&& 0 <= from <= to <= bytes.len()
    &&& is_char_boundary(bytes, from)
    &&& is_char_boundary(bytes.subrange(from, bytes.len() as int), to - from)
}

/// Cuts the bytes from `from` up to `to` out of a text, where that can be
/// done.
pub fn cut<'a>(s: &'a str, from: usize, to: usize) -> (r: Option<&'a str>)
    ensures
        r is Some <==> can_cut(s.spec_bytes(), from as int, to as int),
        r is Some ==> r.unwrap().spec_bytes() == s.spec_bytes().subrange(from as int, to as int),
{
    if from > to || to > s.as_bytes().len() || !s.is_char_boundary(from) {
        return None;
    }
    let tail = s.split_at(from).1;
    if !tail.is_char_boundary(to - from) {
        return None;
    }
    let part = tail.split_at(to - from).0;
    assert(part.spec_bytes() =~= s.spec_bytes().subrange(from as int, to as int));
    Some(part)
}

/// `s` with every backslash turned into a forward slash.
pub open spec fn forward_slashes(s: Seq<char>) -> Seq<char> {
    Seq::new(s.len(), |i: int| if s[i] == '\\' { '/' } else { s[i] })
}

/// The lowercase hexadecimal digit of `d`, for `d` under 16.
pub open spec fn hex_digit(d: int) -> char {
    if d < 10 {
        (48 + d) as u8 as char
    } else {
        (87 + d) as u8 as char
    }
}

/// The last `width` hexadecimal digits of `v`, most significant first,
/// zeros included.
pub open spec fn hex(v: int, width: nat) -> Seq<char>
    decreases width,
{
    if width == 0 {
        Seq::empty()
    } else {
        hex(v / 16, (width - 1) as nat).push(hex_digit(v % 16))
    }
}

/// The decimal digits of `n`, without leading zeros.
pub open spec fn decimal(n: int) -> Seq<char>
    decreases n,
{
    if n < 10 {
        seq![(48 + n) as u8 as char]
    } else {
        decimal(n / 10).push((48 + n % 10) as u8 as char)
    }
}

/// Adds the last `width` hexadecimal digits of `v` to `out`.
pub fn push_hex(out: &mut String, v: u64, width: u8)
    ensures
        final(out)@ == old(out)@ + hex(v as int, width as nat),
    decreases width,
{
    if width > 0 {
        push_hex(out, v / 16, width - 1);
        let d: u8 = (v % 16) as u8;
        let c: char = if d < 10 { (48 + d) as char } else { (87 + d) as char };
        push_char(out, c);
        assert(final(out)@ =~= old(out)@ + hex(v as int, width as nat));
    } else {
        assert(final(out)@ =~= old(out)@ + hex(v as int, width as nat));
    }
}

/// Adds the decimal digits of `n` to `out`.
pub fn push_decimal(out: &mut String, n: u64)
    ensures
        final(out)@ == old(out)@ + decimal(n as int),
    decreases n,
{
    if n < 10 {
        push_char(out, (48 + (n as u8)) as char);
        assert(final(out)@ =~= old(out)@ + decimal(n as int));
    } else {
        push_decimal(out, n / 10);
        push_char(out, (48 + ((n % 10) as u8)) as char);
        assert(final(out)@ =~= old(out)@ + decimal(n as int));
    }
}

/// Adds `s` to `out`, every backslash turned into a forward slash.
pub fn push_forward(out: &mut String, s: &Vec<char>)
    ensures
        final(out)@ == old(out)@ + forward_slashes(s@),
{
    let mut i: usize = 0;
    while i < s.len()
        invariant
            i <= s@.len(),
            out@ == old(out)@ + forward_slashes(s@.subrange(0, i as int)),
        decreases s@.len() - i,
    {
        let c: char = s[i];
        push_char(out, if c == '\\' { '/' } else { c });
        i += 1;
        assert(out@ =~= old(out)@ + forward_slashes(s@.subrange(0, i as int)));
    }
    assert(s@.subrange(0, s@.len() as int) =~= s@);
}

} // verus!
