//! Character-level text utilities: string equality, ASCII lowercasing,
//! and substring search, each specified over `Seq<char>` views.

use vstd::prelude::*;
use vstd::string::StrSliceExecFns;

verus! {

/// ASCII lowercasing of a single character; other characters are unchanged.
pub open spec fn lower_char(c: char) -> char {
    if 'A' <= c && c <= 'Z' {
        (c as int + 32) as char
    } else {
        c
    }
}

/// ASCII lowercasing of a character sequence.
pub open spec fn lower(s: Seq<char>) -> Seq<char> {
    s.map_values(|c: char| lower_char(c))
}

/// `needle` occurs in `hay` as a contiguous run (the empty sequence
/// occurs in everything).
pub open spec fn is_substring(needle: Seq<char>, hay: Seq<char>) -> bool {
    exists|i: int|
        0 <= i <= hay.len() - needle.len() && #[trigger] hay.subrange(i, i + needle.len())
            == needle
}

/// Character-for-character string equality.
pub fn str_eq(a: &str, b: &str) -> (r: bool)
    ensures
        r == (a@ == b@),
{
    let alen = a.unicode_len();
    let blen = b.unicode_len();
    if alen != blen {
        return false;
    }
    let mut i: usize = 0;
    while i < alen
        invariant
            i <= alen,
            alen == a@.len(),
            alen == b@.len(),
            forall|j: int| 0 <= j < i ==> a@[j] == b@[j],
        decreases alen - i,
    {
        if a.get_char(i) != b.get_char(i) {
            return false;
        }
        i += 1;
    }
    proof {
        assert(a@ =~= b@);
    }
    true
}

/// The characters of `s`, ASCII-lowercased, as a vector.
pub fn lower_chars(s: &str) -> (v: Vec<char>)
    ensures
        v@ == lower(s@),
{
    let n = s.unicode_len();
    let mut v: Vec<char> = Vec::new();
    let mut i: usize = 0;
    while i < n
        invariant
            i <= n,
            n == s@.len(),
            v@ == lower(s@.take(i as int)),
        decreases n - i,
    {
        let c = s.get_char(i);
        let lc = if c >= 'A' && c <= 'Z' {
            ((c as u8) + 32) as char
        } else {
            c
        };
        v.push(lc);
        proof {
            assert(lower(s@.take(i + 1)) =~= lower(s@.take(i as int)).push(lower_char(s@[i as int])));
        }
        i += 1;
    }
    proof {
        assert(s@.take(n as int) =~= s@);
    }
    v
}

/// Whether `needle` stands at position `pos` of `hay`.
fn matches_at(hay: &Vec<char>, needle: &Vec<char>, pos: usize) -> (r: bool)
    requires
        pos + needle@.len() <= hay@.len(),
    ensures
        r == (hay@.subrange(pos as int, pos + needle@.len()) == needle@),
{
    let n = needle.len();
    let hlen = hay.len();
    let mut j: usize = 0;
    while j < n
        invariant
            j <= n,
            n == needle@.len(),
            hlen == hay@.len(),
            pos + n <= hlen,
            forall|k: int| 0 <= k < j ==> hay@[pos + k] == needle@[k],
        decreases n - j,
    {
        if hay[pos + j] != needle[j] {
            proof {
                assert(hay@.subrange(pos as int, pos + needle@.len())[j as int] != needle@[j as int]);
            }
            return false;
        }
        j += 1;
    }
    proof {
        assert(hay@.subrange(pos as int, pos + needle@.len()) =~= needle@);
    }
    true
}

/// Case-insensitive substring test: whether the lowercased `needle`
/// occurs in the lowercased `hay`.
pub fn contains_ci(hay: &str, needle: &str) -> (r: bool)
    ensures
        r == is_substring(lower(needle@), lower(hay@)),
{
    let h = lower_chars(hay);
    let n = lower_chars(needle);
    if n.len() == 0 {
        proof {
            assert(lower(needle@).len() == 0);
            assert(lower(hay@).subrange(0, 0 + lower(needle@).len() as int) =~= lower(needle@));
            assert(is_substring(lower(needle@), lower(hay@)));
        }
        return true;
    }
    if n.len() > h.len() {
        return false;
    }
    let count = h.len() - n.len() + 1;
    let mut i: usize = 0;
    while i < count
        invariant
            count == h@.len() - n@.len() + 1,
            1 <= n@.len() <= h@.len(),
            i <= count,
            h@ == lower(hay@),
            n@ == lower(needle@),
            forall|k: int|
                0 <= k < i ==> #[trigger] h@.subrange(k, k + n@.len()) != n@,
        decreases count - i,
    {
        if matches_at(&h, &n, i) {
            return true;
        }
        i += 1;
    }
    false
}

} // verus!
