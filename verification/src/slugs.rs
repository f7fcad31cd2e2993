//! Slug generation. The policy is deterministic: a slug is the URL's hash,
//! written as a fixed number of hex digits; if that candidate is already
//! taken, a fallback string is built that provably differs from every
//! existing slug (it disagrees with the i-th slug at position i, or in
//! length). Callers only rely on the result being fresh.
use vstd::prelude::*;
use vstd::string::StrSliceExecFns;

use crate::Slug;
use crate::Url;
use crate::projection::LinkEntry;
use crate::projection::find_entry;

verus! {

/// The number of hex digits in a hash-derived slug.
pub const SLUG_LEN: usize = 10;

/// A 64-bit FNV-1a style hash of the characters of `s`.
fn hash_str(s: &str) -> u64 {
    let n = s.unicode_len();
    let mut h: u64 = 0xcbf29ce484222325;
    let mut i: usize = 0;
    while i < n
        invariant
            i <= n,
            n == s@.len(),
        decreases n - i,
    {
        let c = s.get_char(i);
        h = (h ^ ((c as u32) as u64)).wrapping_mul(0x100000001b3);
        i += 1;
    }
    h
}

/// The hex digit for a value below sixteen, as a one-character string.
fn hex_digit(d: u64) -> (c: &'static str)
    requires
        d < 16,
    ensures
        c@.len() == 1,
{
    proof {
        reveal_strlit("0");
        reveal_strlit("1");
        reveal_strlit("2");
        reveal_strlit("3");
        reveal_strlit("4");
        reveal_strlit("5");
        reveal_strlit("6");
        reveal_strlit("7");
        reveal_strlit("8");
        reveal_strlit("9");
        reveal_strlit("a");
        reveal_strlit("b");
        reveal_strlit("c");
        reveal_strlit("d");
        reveal_strlit("e");
        reveal_strlit("f");
    }
    if d == 0 {
        "0"
    } else if d == 1 {
        "1"
    } else if d == 2 {
        "2"
    } else if d == 3 {
        "3"
    } else if d == 4 {
        "4"
    } else if d == 5 {
        "5"
    } else if d == 6 {
        "6"
    } else if d == 7 {
        "7"
    } else if d == 8 {
        "8"
    } else if d == 9 {
        "9"
    } else if d == 10 {
        "a"
    } else if d == 11 {
        "b"
    } else if d == 12 {
        "c"
    } else if d == 13 {
        "d"
    } else if d == 14 {
        "e"
    } else {
        "f"
    }
}

/// Writes `h` as `SLUG_LEN` hex digits, least significant first.
fn hex_slug(h: u64) -> (s: String)
    ensures
        s@.len() == SLUG_LEN,
{
    let mut s = String::new();
    let mut x = h;
    let mut i: usize = 0;
    while i < SLUG_LEN
        invariant
            i <= SLUG_LEN,
            s@.len() == i,
        decreases SLUG_LEN - i,
    {
        let d = x & 0xf;
        proof {
            assert(x & 0xf < 16) by (bit_vector);
        }
        s.append(hex_digit(d));
        x = x >> 4;
        i += 1;
    }
    s
}

/// Builds a string that differs from the slug of every entry: it has the
/// same length as the entry list, and disagrees with the i-th slug at
/// position i whenever that slug has the same length.
fn diagonal_slug(entries: &Vec<LinkEntry>) -> (s: String)
    ensures
        s@.len() == entries@.len(),
        forall|j: int|
            0 <= j < entries@.len() ==> ((#[trigger] entries@[j]).slug@.len() == entries@.len()
                ==> s@[j] != entries@[j].slug@[j]),
{
    let n = entries.len();
    let mut s = String::new();
    let mut i: usize = 0;
    while i < n
        invariant
            i <= n,
            n == entries@.len(),
            s@.len() == i,
            forall|j: int|
                0 <= j < i ==> ((#[trigger] entries@[j]).slug@.len() == n ==> s@[j]
                    != entries@[j].slug@[j]),
        decreases n - i,
    {
        proof {
            reveal_strlit("x");
            reveal_strlit("y");
        }
        let sl = &entries[i].slug.0;
        let l = sl.as_str().unicode_len();
        let c: &'static str = if l == n {
            let cc = sl.as_str().get_char(i);
            if cc == 'x' {
                "y"
            } else {
                "x"
            }
        } else {
            "x"
        };
        s.append(c);
        i += 1;
    }
    s
}

/// Returns a slug no existing entry uses: the hex form of the URL's hash if
/// that is still free, and otherwise a fallback that differs from every
/// existing slug.
pub(crate) fn fresh_slug(entries: &Vec<LinkEntry>, url: &Url) -> (s: Slug)
    ensures
        forall|i: int| 0 <= i < entries@.len() ==> (#[trigger] entries@[i]).slug@ != s@,
{
    let h = hash_str(url.0.as_str());
    let cand = Slug(hex_slug(h));
    match find_entry(entries, &cand) {
        None => cand,
        Some(_) => {
            let d = diagonal_slug(entries);
            proof {
                assert forall|i: int|
                    0 <= i < entries@.len() implies (#[trigger] entries@[i]).slug@ != d@ by {
                    if entries@[i].slug@.len() == entries@.len() {
                        assert(d@[i] != entries@[i].slug@[i]);
                    }
                }
            }
            Slug(d)
        },
    }
}

} // verus!
