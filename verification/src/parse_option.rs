//! Extraction of a flag's value from one argument token, in the two supported
//! syntaxes: `--name value` (the value is the following token) and
//! `--name=value` (the value is the rest of the token, trimmed of whitespace).

use vstd::prelude::*;
use vstd::string::StrSliceExecFns;

use crate::strings::{has_prefix, spec_trim, str_eq, str_has_prefix, trim};

verus! {

/// Whether `fragment` is `prefix` followed by `=` and then anything.
pub open spec fn has_assignment(fragment: Seq<char>, prefix: Seq<char>) -> bool {
    has_prefix(fragment, prefix.push('='))
}

/// The part of `fragment` after `prefix` and the `=` sign, untrimmed.
pub open spec fn assignment_value(fragment: Seq<char>, prefix: Seq<char>) -> Seq<char> {
    fragment.subrange(prefix.len() as int + 1, fragment.len() as int)
}

/// The value that a single flag token yields for the flag named `prefix`:
/// the following token when the fragment is exactly the flag name (absent when
/// the input ends there), the trimmed remainder when the fragment is
/// `prefix=value`, and nothing otherwise.
pub open spec fn spec_get_value(
    fragment: Seq<char>,
    prefix: Seq<char>,
    next_fragment: Option<Seq<char>>,
) -> Option<Seq<char>> {
    if fragment == prefix {
        next_fragment
    } else if has_assignment(fragment, prefix) {
        Some(spec_trim(assignment_value(fragment, prefix)))
    } else {
        None
    }
}

/// Extract the value of the flag named `prefix` from the token `fragment`,
/// where `next_fragment` is the token that follows it, if any.  The caller is
/// expected to skip that following token exactly when `fragment` equals
/// `prefix`, since it was consumed as the flag's value.
pub fn get_value(fragment: &str, prefix: &str, next_fragment: Option<&String>) -> (r: Option<
    String,
>)
    ensures
        r.deep_view() == spec_get_value(fragment@, prefix@, next_fragment.deep_view()),
{
    if str_eq(fragment, prefix) {
        match next_fragment {
            Some(value) => Some(value.clone()),
            None => None,
        }
    } else {
        let f_len = fragment.unicode_len();
        let p_len = prefix.unicode_len();
        if p_len < f_len && str_has_prefix(fragment, prefix) && fragment.get_char(p_len) == '=' {
            proof {
                let pe = prefix@.push('=');
                assert(fragment@.subrange(0, p_len as int + 1) =~= pe) by {
                    assert(forall|j: int|
                        0 <= j < p_len ==> fragment@.subrange(0, p_len as int)[j] == fragment@[j]);
                }
                assert(has_assignment(fragment@, prefix@));
            }
            let raw = fragment.substring_char(p_len + 1, f_len);
            Some(trim(raw))
        } else {
            proof {
                if has_assignment(fragment@, prefix@) {
                    let pe = prefix@.push('=');
                    assert(fragment@.subrange(0, p_len as int + 1) == pe);
                    assert(fragment@[p_len as int] == fragment@.subrange(0, p_len as int + 1)[p_len as int]);
                    assert(fragment@.subrange(0, p_len as int) =~= prefix@) by {
                        assert(forall|j: int|
                            0 <= j < p_len ==> fragment@.subrange(0, p_len as int + 1)[j]
                                == fragment@[j]);
                    }
                    assert(has_prefix(fragment@, prefix@));
                    assert(false);
                }
            }
            None
        }
    }
}

} // verus!
