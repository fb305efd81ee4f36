//! Small verified helpers over strings and characters that the rest of
//! the crate builds on.

use vstd::prelude::*;

verus! {

/// Compare two string slices character by character.
pub fn str_eq_str(a: &str, b: &str) -> (r: bool)
    ensures
        r == (a@ == b@),
{
    let alen = a.unicode_len();
    let blen = b.unicode_len();
    if alen != blen {
        return false;
    }
    let mut i: usize = 0;
    while i < alen
        invariant
            i <= alen,
            alen == a@.len(),
            blen == b@.len(),
            alen == blen,
            forall|j: int| 0 <= j < i ==> a@[j] == b@[j],
        decreases alen - i,
    {
        if a.get_char(i) != b.get_char(i) {
            return false;
        }
        i += 1;
    }
    proof {
        assert(a@ =~= b@);
    }
    true
}

/// The characters of a string as a vector, for logic that walks them by
/// index.
pub fn chars_of(s: &str) -> (r: Vec<char>)
    ensures
        r@ == s@,
{
    let n = s.unicode_len();
    let mut r: Vec<char> = Vec::new();
    let mut i: usize = 0;
    while i < n
        invariant
            i <= n,
            n == s@.len(),
            r@ == s@.subrange(0, i as int),
        decreases n - i,
    {
        r.push(s.get_char(i));
        proof {
            assert(r@ =~= s@.subrange(0, i + 1 as int));
        }
        i += 1;
    }
    proof {
        assert(s@.subrange(0, n as int) =~= s@);
    }
    r
}

/// Relies on String::push: appends exactly one character.
#[verifier::external_body]
fn push_char(s: &mut String, c: char)
    ensures
        final(s)@ == old(s)@.push(c),
{
    s.push(c);
}

/// Build a string out of a vector of characters.
pub fn string_from_chars(v: &Vec<char>) -> (r: String)
    ensures
        r@ == v@,
{
    let mut r = String::new();
    let mut i: usize = 0;
    while i < v.len()
        invariant
            i <= v@.len(),
            r@ == v@.subrange(0, i as int),
        decreases v@.len() - i,
    {
        push_char(&mut r, v[i]);
        proof {
            assert(r@ =~= v@.subrange(0, i + 1 as int));
        }
        i += 1;
    }
    proof {
        assert(v@.subrange(0, v@.len() as int) =~= v@);
    }
    r
}

/// The upper-case form of one character, over the plain letters.
pub open spec fn spec_ascii_upper(c: char) -> char {
    if 'a' <= c <= 'z' {
        ((c as u8) - 0x20) as char
    } else {
        c
    }
}

/// Map a plain lower-case letter to upper case; leave anything else alone.
pub fn ascii_upper(c: char) -> (r: char)
    ensures
        r == spec_ascii_upper(c),
{
    if 'a' <= c && c <= 'z' {
        ((c as u8) - 0x20) as char
    } else {
        c
    }
}

/// A whole string mapped to upper case, letter by letter.
pub open spec fn spec_ascii_upper_seq(s: Seq<char>) -> Seq<char> {
    s.map_values(|c: char| spec_ascii_upper(c))
}

/// Upper-case every plain letter of a string.
pub fn to_ascii_upper(s: &str) -> (r: String)
    ensures
        r@ == spec_ascii_upper_seq(s@),
{
    let n = s.unicode_len();
    let mut out: Vec<char> = Vec::new();
    let mut i: usize = 0;
    while i < n
        invariant
            i <= n,
            n == s@.len(),
            out@ == spec_ascii_upper_seq(s@.subrange(0, i as int)),
        decreases n - i,
    {
        out.push(ascii_upper(s.get_char(i)));
        proof {
            assert(out@ =~= spec_ascii_upper_seq(s@.subrange(0, i + 1 as int)));
        }
        i += 1;
    }
    proof {
        assert(s@.subrange(0, n as int) =~= s@);
    }
    string_from_chars(&out)
}


/// A blank character trimmed from a part's ends.
pub open spec fn spec_is_blank(c: char) -> bool {
    c == ' ' || c == '\t' || c == '\n' || c == '\r'
}

/// The string with blanks removed from its start.
pub open spec fn spec_trim_blank_start(s: Seq<char>) -> Seq<char>
    decreases s.len(),
{
    if s.len() > 0 && spec_is_blank(s.first()) {
        spec_trim_blank_start(s.drop_first())
    } else {
        s
    }
}

/// The string with blanks removed from its end.
pub open spec fn spec_trim_blank_end(s: Seq<char>) -> Seq<char>
    decreases s.len(),
{
    if s.len() > 0 && spec_is_blank(s.last()) {
        spec_trim_blank_end(s.drop_last())
    } else {
        s
    }
}

/// The string with blanks removed from both ends.
pub open spec fn spec_trim_blank(s: Seq<char>) -> Seq<char> {
    spec_trim_blank_end(spec_trim_blank_start(s))
}

/// Whether this character is trimmed from a part's ends.
fn is_blank(c: char) -> (r: bool)
    ensures
        r == spec_is_blank(c),
{
    c == ' ' || c == '\t' || c == '\n' || c == '\r'
}

/// Remove blanks from both ends of a character vector.
pub fn trim_blank(v: &Vec<char>) -> (r: Vec<char>)
    ensures
        r@ == spec_trim_blank(v@),
{
    let n = v.len();
    proof {
        assert(v@.skip(0) =~= v@);
    }
    let mut start: usize = 0;
    while start < n && is_blank(v[start])
        invariant
            start <= n,
            n == v@.len(),
            spec_trim_blank_start(v@) == spec_trim_blank_start(v@.skip(start as int)),
        decreases n - start,
    {
        proof {
            assert(v@.skip(start as int).drop_first() =~= v@.skip(start + 1 as int));
        }
        start += 1;
    }
    proof {
        if start == n {
            assert(v@.skip(start as int) =~= Seq::<char>::empty());
        }
        assert(spec_trim_blank_start(v@) == v@.skip(start as int));
        assert(v@.skip(start as int) =~= v@.subrange(start as int, n as int));
    }
    let mut end: usize = n;
    while end > start && is_blank(v[end - 1])
        invariant
            start <= end <= n,
            n == v@.len(),
            spec_trim_blank_end(v@.subrange(start as int, n as int))
                == spec_trim_blank_end(v@.subrange(start as int, end as int)),
        decreases end,
    {
        proof {
            assert(v@.subrange(start as int, end as int).drop_last()
                =~= v@.subrange(start as int, end - 1 as int));
        }
        end -= 1;
    }
    proof {
        if end == start {
            assert(v@.subrange(start as int, end as int) =~= Seq::<char>::empty());
        }
        assert(spec_trim_blank_end(v@.subrange(start as int, n as int))
            == v@.subrange(start as int, end as int));
    }
    let mut out: Vec<char> = Vec::new();
    let mut i: usize = start;
    while i < end
        invariant
            start <= i <= end <= n,
            n == v@.len(),
            out@ == v@.subrange(start as int, i as int),
        decreases end - i,
    {
        out.push(v[i]);
        proof {
            assert(out@ =~= v@.subrange(start as int, i + 1 as int));
        }
        i += 1;
    }
    out
}

} // verus!
