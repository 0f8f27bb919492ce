//! Fixed-length text fields: raw bytes are decoded permissively (invalid
//! encoding units become replacement characters), surrounding whitespace is
//! trimmed, and embedded NUL characters are stripped.

use crate::cursor::read_bytes;
use vstd::prelude::*;

verus! {

/// The character sequence that the permissive UTF-8 decode of a byte string
/// yields; a pure function of the bytes alone.
pub uninterp spec fn lossy_of(bytes: Seq<u8>) -> Seq<char>;

/// The Unicode whitespace characters, as trimming recognizes them.
pub open spec fn is_space(c: char) -> bool {
    let u = c as u32;
    u == 0x20 || (0x9 <= u && u <= 0xd) || u == 0x85 || u == 0xa0 || u == 0x1680 || (0x2000 <= u
        && u <= 0x200a) || u == 0x2028 || u == 0x2029 || u == 0x202f || u == 0x205f || u == 0x3000
}

/// `s` without its leading whitespace.
pub open spec fn trim_start(s: Seq<char>) -> Seq<char>
    decreases s.len(),
{
    if s.len() > 0 && is_space(s[0]) {
        trim_start(s.skip(1))
    } else {
        s
    }
}

/// `s` without its trailing whitespace.
pub open spec fn trim_end(s: Seq<char>) -> Seq<char>
    decreases s.len(),
{
    if s.len() > 0 && is_space(s.last()) {
        trim_end(s.drop_last())
    } else {
        s
    }
}

/// `s` without surrounding whitespace.
pub open spec fn trimmed(s: Seq<char>) -> Seq<char> {
    trim_end(trim_start(s))
}

/// `s` without its NUL characters.
pub open spec fn strip_nul(s: Seq<char>) -> Seq<char> {
    s.filter(|c: char| c != '\0')
}

/// The cleaned-up text of a raw fixed-length field: permissive decode, trim,
/// then NUL strip.
pub open spec fn clean_of(bytes: Seq<u8>) -> Seq<char> {
    strip_nul(trimmed(lossy_of(bytes)))
}

/// Relies on String::from_utf8_lossy: valid UTF-8 decodes as itself (so
/// ASCII bytes decode to themselves) and invalid sequences become
/// replacement characters; the result depends on the bytes alone.
#[verifier::external_body]
fn lossy_chars(bytes: &[u8]) -> (r: Vec<char>)
    ensures
        r@ == lossy_of(bytes@),
        (forall|i: int| 0 <= i < bytes@.len() ==> bytes@[i] < 0x80) ==> (r@.len() == bytes@.len()
            && (forall|i: int| 0 <= i < bytes@.len() ==> r@[i] == bytes@[i] as char)),
{
    String::from_utf8_lossy(bytes).chars().collect()
}

/// Relies on Iterator::collect for String: collecting chars yields the
/// string of exactly those chars in order.
#[verifier::external_body]
fn chars_to_string(chars: &Vec<char>) -> (r: String)
    ensures
        r@ == chars@,
{
    chars.iter().collect()
}

/// Whether the character at `i` is whitespace.
fn is_space_at(v: &Vec<char>, i: usize) -> (r: bool)
    requires
        i < v@.len(),
    ensures
        r == is_space(v@[i as int]),
{
    let u = v[i] as u32;
    u == 0x20 || (0x9 <= u && u <= 0xd) || u == 0x85 || u == 0xa0 || u == 0x1680 || (0x2000 <= u
        && u <= 0x200a) || u == 0x2028 || u == 0x2029 || u == 0x202f || u == 0x205f || u == 0x3000
}

/// A fully whitespace prefix does not change what trimming the start leaves.
proof fn lemma_trim_start_prefix(s: Seq<char>, k: int)
    requires
        0 <= k <= s.len(),
        forall|j: int| 0 <= j < k ==> is_space(s[j]),
    ensures
        trim_start(s) == trim_start(s.skip(k)),
    decreases k,
{
    if k > 0 {
        assert(is_space(s[0]));
        lemma_trim_start_prefix(s.skip(1), k - 1);
        assert(s.skip(1).skip(k - 1) =~= s.skip(k));
    } else {
        assert(s.skip(0) =~= s);
    }
}

/// A fully whitespace suffix does not change what trimming the end leaves.
proof fn lemma_trim_end_suffix(s: Seq<char>, k: int)
    requires
        0 <= k <= s.len(),
        forall|j: int| k <= j < s.len() ==> is_space(s[j]),
    ensures
        trim_end(s) == trim_end(s.take(k)),
    decreases s.len() - k,
{
    if k < s.len() {
        assert(is_space(s.last()));
        assert(s.drop_last() =~= s.take(s.len() - 1));
        lemma_trim_end_suffix(s.take(s.len() - 1), k);
        assert(s.take(s.len() - 1).take(k) =~= s.take(k));
    } else {
        assert(s.take(k) =~= s);
    }
}

/// Stripping NULs distributes over appending one character.
proof fn lemma_strip_nul_push(s: Seq<char>, c: char)
    ensures
        strip_nul(s.push(c)) == if c == '\0' {
            strip_nul(s)
        } else {
            strip_nul(s).push(c)
        },
{
    broadcast use Seq::lemma_filter_push;

}

/// Trims surrounding whitespace and strips NULs out of a character sequence.
fn clean_chars(v: &Vec<char>) -> (r: Vec<char>)
    ensures
        r@ == strip_nul(trimmed(v@)),
{
    let len: usize = v.len();
    let mut start: usize = 0;
    while start < len && is_space_at(v, start)
        invariant
            v@.len() == len,
            start <= len,
            forall|j: int| 0 <= j < start ==> is_space(v@[j]),
        decreases len - start,
    {
        start = start + 1;
    }
    proof {
        lemma_trim_start_prefix(v@, start as int);
        if start < len {
            assert(v@.skip(start as int)[0] == v@[start as int]);
        } else {
            assert(v@.skip(start as int) =~= Seq::<char>::empty());
        }
        assert(trim_start(v@) == v@.skip(start as int));
    }
    let mut end: usize = len;
    while end > start && is_space_at(v, end - 1)
        invariant
            v@.len() == len,
            start <= end <= len,
            forall|j: int| end <= j < len ==> is_space(v@[j]),
        decreases end,
    {
        end = end - 1;
    }
    proof {
        let tail = v@.skip(start as int);
        assert(forall|j: int| end - start <= j < tail.len() ==> is_space(#[trigger] tail[j]));
        lemma_trim_end_suffix(tail, end - start);
        assert(tail.take(end - start) =~= v@.subrange(start as int, end as int));
        if end > start {
            assert(v@.subrange(start as int, end as int).last() == v@[end - 1]);
        }
        assert(trim_end(tail) == v@.subrange(start as int, end as int));
        assert(trimmed(v@) == v@.subrange(start as int, end as int));
    }
    let mut out: Vec<char> = Vec::new();
    let mut i: usize = start;
    while i < end
        invariant
            v@.len() == len,
            start <= i <= end <= len,
            out@ == strip_nul(v@.subrange(start as int, i as int)),
        decreases end - i,
    {
        let c = v[i];
        proof {
            lemma_strip_nul_push(v@.subrange(start as int, i as int), v@[i as int]);
            assert(v@.subrange(start as int, i as int + 1) =~= v@.subrange(
                start as int,
                i as int,
            ).push(v@[i as int]));
        }
        if c != '\0' {
            out.push(c);
        }
        i = i + 1;
    }
    out
}

/// Decodes the `n` raw text bytes at `pos` into cleaned-up text: permissive
/// decode, whitespace trim, NUL strip.
pub fn clean_text(buf: &[u8], pos: usize, n: usize) -> (r: String)
    requires
        pos + n <= buf@.len(),
    ensures
        r@ == clean_of(buf@.subrange(pos as int, pos as int + n as int)),
{
    let raw = read_bytes(buf, pos, n);
    let chars = lossy_chars(raw.as_slice());
    let cleaned = clean_chars(&chars);
    chars_to_string(&cleaned)
}

} // verus!
