//! Character-level string primitives: flag detection, equality, prefix tests
//! and whitespace trimming, each specified over the character sequence view.

use vstd::prelude::*;
use vstd::string::StrSliceExecFns;

verus! {

/// A token is treated as a flag when it begins with `-`.
pub open spec fn is_flag(t: Seq<char>) -> bool {
    t.len() > 0 && t[0] == '-'
}

/// Executable test for [`is_flag`].
pub fn is_flag_token(t: &str) -> (r: bool)
    ensures
        r == is_flag(t@),
{
    t.unicode_len() > 0 && t.get_char(0) == '-'
}

/// Executable test for emptiness of a string slice.
pub fn str_is_empty(s: &str) -> (r: bool)
    ensures
        r == (s@.len() == 0),
{
    s.unicode_len() == 0
}

/// Character-for-character equality of two string slices.
pub fn str_eq(a: &str, b: &str) -> (r: bool)
    ensures
        r == (a@ == b@),
{
    let a_len = a.unicode_len();
    let b_len = b.unicode_len();
    if a_len != b_len {
        return false;
    }
    let mut i: usize = 0;
    while i < a_len
        invariant
            i <= a_len,
            a_len == a@.len(),
            b_len == b@.len(),
            a_len == b_len,
            forall|j: int| 0 <= j < i ==> a@[j] == b@[j],
        decreases a_len - i,
    {
        if a.get_char(i) != b.get_char(i) {
            return false;
        }
        i += 1;
    }
    proof {
        assert(a@ =~= b@);
    }
    true
}

/// Whether `p` is a prefix of `s`.
pub open spec fn has_prefix(s: Seq<char>, p: Seq<char>) -> bool {
    p.len() <= s.len() && s.subrange(0, p.len() as int) == p
}

/// Executable test for [`has_prefix`].
pub fn str_has_prefix(s: &str, p: &str) -> (r: bool)
    ensures
        r == has_prefix(s@, p@),
{
    let s_len = s.unicode_len();
    let p_len = p.unicode_len();
    if p_len > s_len {
        return false;
    }
    let mut i: usize = 0;
    while i < p_len
        invariant
            i <= p_len,
            p_len <= s_len,
            s_len == s@.len(),
            p_len == p@.len(),
            forall|j: int| 0 <= j < i ==> s@[j] == p@[j],
        decreases p_len - i,
    {
        if s.get_char(i) != p.get_char(i) {
            proof {
                if has_prefix(s@, p@) {
                    assert(s@.subrange(0, p@.len() as int)[i as int] == s@[i as int]);
                }
            }
            return false;
        }
        i += 1;
    }
    proof {
        assert(s@.subrange(0, p@.len() as int) =~= p@);
    }
    true
}

/// The characters with the Unicode `White_Space` property: the set that
/// `str::trim` strips from the ends of a string.
pub open spec fn is_whitespace_char(c: char) -> bool {
    ||| c == ' '
    ||| c == '\t'
    ||| c == '\n'
    ||| c == '\u{0B}'
    ||| c == '\u{0C}'
    ||| c == '\r'
    ||| c == '\u{85}'
    ||| c == '\u{A0}'
    ||| c == '\u{1680}'
    ||| c == '\u{2000}'
    ||| c == '\u{2001}'
    ||| c == '\u{2002}'
    ||| c == '\u{2003}'
    ||| c == '\u{2004}'
    ||| c == '\u{2005}'
    ||| c == '\u{2006}'
    ||| c == '\u{2007}'
    ||| c == '\u{2008}'
    ||| c == '\u{2009}'
    ||| c == '\u{200A}'
    ||| c == '\u{2028}'
    ||| c == '\u{2029}'
    ||| c == '\u{202F}'
    ||| c == '\u{205F}'
    ||| c == '\u{3000}'
}

/// Executable test for [`is_whitespace_char`].
pub fn whitespace_char(c: char) -> (r: bool)
    ensures
        r == is_whitespace_char(c),
{
    c == ' ' || c == '\t' || c == '\n' || c == '\u{0B}' || c == '\u{0C}' || c == '\r'
        || c == '\u{85}' || c == '\u{A0}' || c == '\u{1680}' || c == '\u{2000}' || c == '\u{2001}'
        || c == '\u{2002}' || c == '\u{2003}' || c == '\u{2004}' || c == '\u{2005}'
        || c == '\u{2006}' || c == '\u{2007}' || c == '\u{2008}' || c == '\u{2009}'
        || c == '\u{200A}' || c == '\u{2028}' || c == '\u{2029}' || c == '\u{202F}'
        || c == '\u{205F}' || c == '\u{3000}'
}

/// The sequence with its leading whitespace removed.
pub open spec fn trim_start(s: Seq<char>) -> Seq<char>
    decreases s.len(),
{
    if s.len() > 0 && is_whitespace_char(s[0]) {
        trim_start(s.drop_first())
    } else {
        s
    }
}

/// The sequence with its trailing whitespace removed.
pub open spec fn trim_end(s: Seq<char>) -> Seq<char>
    decreases s.len(),
{
    if s.len() > 0 && is_whitespace_char(s[s.len() - 1]) {
        trim_end(s.drop_last())
    } else {
        s
    }
}

/// The sequence with surrounding whitespace removed, as `str::trim` leaves it.
pub open spec fn spec_trim(s: Seq<char>) -> Seq<char> {
    trim_end(trim_start(s))
}

/// A copy of `s` with surrounding whitespace removed.
pub fn trim(s: &str) -> (r: String)
    ensures
        r@ == spec_trim(s@),
{
    let len = s.unicode_len();
    proof {
        assert(s@.subrange(0, len as int) =~= s@);
    }
    let mut start: usize = 0;
    while start < len && whitespace_char(s.get_char(start))
        invariant
            start <= len,
            len == s@.len(),
            trim_start(s@) == trim_start(s@.subrange(start as int, len as int)),
        decreases len - start,
    {
        proof {
            let cur = s@.subrange(start as int, len as int);
            assert(cur[0] == s@[start as int]);
            assert(cur.drop_first() =~= s@.subrange(start as int + 1, len as int));
        }
        start += 1;
    }
    proof {
        let cur = s@.subrange(start as int, len as int);
        if cur.len() > 0 {
            assert(cur[0] == s@[start as int]);
        }
        assert(trim_start(cur) == cur);
    }
    let mut end: usize = len;
    while end > start && whitespace_char(s.get_char(end - 1))
        invariant
            start <= end <= len,
            len == s@.len(),
            trim_start(s@) == s@.subrange(start as int, len as int),
            trim_end(s@.subrange(start as int, len as int)) == trim_end(
                s@.subrange(start as int, end as int),
            ),
        decreases end,
    {
        proof {
            let cur = s@.subrange(start as int, end as int);
            assert(cur[cur.len() - 1] == s@[end - 1]);
            assert(cur.drop_last() =~= s@.subrange(start as int, end as int - 1));
        }
        end -= 1;
    }
    proof {
        let cur = s@.subrange(start as int, end as int);
        if cur.len() > 0 {
            assert(cur[cur.len() - 1] == s@[end - 1]);
        }
        assert(trim_end(cur) == cur);
        assert(spec_trim(s@) == s@.subrange(start as int, end as int));
    }
    let trimmed = s.substring_char(start, end);
    trimmed.to_string()
}

} // verus!
