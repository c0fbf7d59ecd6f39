//! Source text as bytes: searching, cutting and joining by byte position.

use vstd::prelude::*;
use vstd::slice::{slice_subrange, slice_to_vec};
use vstd::string::{is_ascii, StrSliceExecFns};

verus! {

/// The byte `{`.
pub const OPEN_BRACE: u8 = 0x7b;

/// The byte `(`.
pub const OPEN_PAREN: u8 = 0x28;

/// The line feed.
pub const LINE_FEED: u8 = 0x0a;

/// The bytes of a text that holds ASCII characters only.
pub open spec fn ascii(s: Seq<char>) -> Seq<u8> {
    Seq::new(s.len(), |i: int| s[i] as u8)
}

/// The bytes of an ASCII string.
pub fn ascii_bytes(s: &str) -> (r: Vec<u8>)
    requires
        is_ascii(s),
    ensures
        r@ == ascii(s@),
{
    broadcast use vstd::string::is_ascii_spec_bytes;

    let r = s.as_bytes_vec();
    assert(r@ =~= ascii(s@));
    r
}

/// A copy of a text.
pub fn copy_bytes(src: &Vec<u8>) -> (r: Vec<u8>)
    ensures
        r@ == src@,
{
    slice_to_vec(src.as_slice())
}

/// A copy of a piece of text.
pub fn copy_slice(src: &[u8]) -> (r: Vec<u8>)
    ensures
        r@ == src@,
{
    slice_to_vec(src)
}

/// Whether two texts are equal.
pub fn same_bytes(a: &[u8], b: &[u8]) -> (r: bool)
    ensures
        r == (a@ == b@),
{
    if a.len() != b.len() {
        return false;
    }
    let mut i: usize = 0;
    while i < a.len()
        invariant
            i <= a.len(),
            a.len() == b.len(),
            forall|j: int| 0 <= j < i ==> a@[j] == b@[j],
        decreases a.len() - i,
    {
        if a[i] != b[i] {
            return false;
        }
        i += 1;
    }
    assert(a@ =~= b@);
    true
}

/// The position of the first `byte` in `src`.
pub fn find_byte(src: &[u8], byte: u8) -> (r: Option<usize>)
    ensures
        r.deep_view() == first_index(src@, byte),
{
    proof {
        src@.index_of_first_ensures(byte);
    }
    let mut i: usize = 0;
    while i < src.len()
        invariant
            i <= src.len(),
            forall|j: int| 0 <= j < i ==> src@[j] != byte,
        decreases src.len() - i,
    {
        if src[i] == byte {
            proof {
                src@.index_of_first_ensures(byte);
            }
            return Some(i);
        }
        i += 1;
    }
    None
}

/// The position of the first `byte` in `s`, if it holds one.
pub open spec fn first_index(s: Seq<u8>, byte: u8) -> Option<usize> {
    match s.index_of_first(byte) {
        Some(i) => Some(i as usize),
        None => None,
    }
}

/// The bytes of `src` from `lo` up to `hi`.
pub fn cut(src: &[u8], lo: usize, hi: usize) -> (r: Vec<u8>)
    requires
        lo <= hi <= src@.len(),
    ensures
        r@ == src@.subrange(lo as int, hi as int),
{
    slice_to_vec(slice_subrange(src, lo, hi))
}

/// Appends `more` to `out`.
pub fn append(out: &mut Vec<u8>, more: &[u8])
    ensures
        final(out)@ == old(out)@ + more@,
{
    let ghost start = out@;
    let mut i: usize = 0;
    assert(out@ =~= start + more@.take(0));
    while i < more.len()
        invariant
            i <= more.len(),
            out@ == start + more@.take(i as int),
        decreases more.len() - i,
    {
        out.push(more[i]);
        assert(out@ =~= start + more@.take(i + 1));
        i += 1;
    }
    assert(more@.take(more.len() as int) =~= more@);
}

/// Whether `src` begins with `prefix`.
pub fn starts_with(src: &[u8], prefix: &[u8]) -> (r: bool)
    ensures
        r == prefix@.is_prefix_of(src@),
{
    if prefix.len() > src.len() {
        return false;
    }
    let mut i: usize = 0;
    while i < prefix.len()
        invariant
            i <= prefix.len() <= src.len(),
            forall|j: int| 0 <= j < i ==> src@[j] == prefix@[j],
        decreases prefix.len() - i,
    {
        if src[i] != prefix[i] {
            return false;
        }
        i += 1;
    }
    true
}

/// The text before the first line feed; the whole text where it holds none.
pub open spec fn first_line_of(s: Seq<u8>) -> Seq<u8> {
    match first_index(s, LINE_FEED) {
        Some(n) => s.take(n as int),
        None => s,
    }
}

/// The first line of a text, without its line feed.
pub fn first_line(src: &[u8]) -> (r: Vec<u8>)
    ensures
        r@ == first_line_of(src@),
{
    proof {
        src@.index_of_first_ensures(LINE_FEED);
    }
    match find_byte(src, LINE_FEED) {
        Some(n) => cut(src, 0, n),
        None => {
            let r = slice_to_vec(src);
            r
        },
    }
}

/// What is left of a declaration when the body is dropped: the text up to
/// and with the first `{`, closed at once by `};`.
pub open spec fn skeleton_of(s: Seq<u8>) -> Seq<u8> {
    s.take(first_index(s, OPEN_BRACE).unwrap() + 1) + ascii("};"@)
}

/// The position of the first `{`.
pub fn find_start_of_function_body(src: &[u8]) -> (r: usize)
    requires
        src@.contains(OPEN_BRACE),
    ensures
        Some(r) == first_index(src@, OPEN_BRACE),
        r < src@.len(),
{
    proof {
        src@.index_of_first_ensures(OPEN_BRACE);
    }
    match find_byte(src, OPEN_BRACE) {
        Some(n) => n,
        None => 0,
    }
}

/// Removes the body of a declaration, leaving just the header with an empty
/// body: the text up to and with the first `{`, then `};`.
pub fn generate_skeleton_for_parsing(src: &[u8]) -> (r: Vec<u8>)
    requires
        src@.contains(OPEN_BRACE),
    ensures
        r@ == skeleton_of(src@),
{
    let n = find_start_of_function_body(src);
    assert(n < src.len());
    let mut s = cut(src, 0, n + 1);
    proof {
        reveal_strlit("};");
    }
    let tail = ascii_bytes("};");
    append(&mut s, tail.as_slice());
    s
}

/// Whether a text can be cut down to its header: it holds a `{`.
pub fn has_body(src: &[u8]) -> (r: bool)
    ensures
        r == src@.contains(OPEN_BRACE),
{
    proof {
        src@.index_of_first_ensures(OPEN_BRACE);
    }
    find_byte(src, OPEN_BRACE).is_some()
}

} // verus!
