//! A single left-to-right scan of the argument vector, collecting the
//! `--context` and `--namespace`/`-n` overrides and the first subcommand
//! token.  Later occurrences of a flag overwrite earlier ones; only the first
//! non-flag token is captured as the subcommand.

use vstd::prelude::*;

use crate::parse_option::{get_value, has_assignment, spec_get_value};
use crate::strings::{is_flag, is_flag_token, str_eq};

verus! {

/// The overrides and the subcommand found in an argument vector.
pub struct Opts {
    pub context: Option<String>,
    pub namespace: Option<String>,
    pub first_command: Option<String>,
}

/// The first of two optional values, falling back to the second.
pub open spec fn prefer(preferred: Option<Seq<char>>, fallback: Option<Seq<char>>) -> Option<
    Seq<char>,
> {
    match preferred {
        Some(v) => Some(v),
        None => fallback,
    }
}

/// The token after position `i`, if any.
pub open spec fn token_after(args: Seq<Seq<char>>, i: int) -> Option<Seq<char>> {
    if i + 1 < args.len() {
        Some(args[i + 1])
    } else {
        None
    }
}

/// Whether the token at `i` is one of the recognized flag names written
/// alone, with a token after it: the scan then consumes that token as the
/// flag's value.
pub open spec fn consumes_next(args: Seq<Seq<char>>, i: int) -> bool {
    &&& (args[i] == "--context"@ || args[i] == "--namespace"@ || args[i] == "-n"@)
    &&& i + 1 < args.len()
}

/// The position at which the scan continues after handling position `i`.
pub open spec fn step(args: Seq<Seq<char>>, i: int) -> int {
    if consumes_next(args, i) {
        i + 2
    } else {
        i + 1
    }
}

/// The context override contributed by the token at `i`, if any.
pub open spec fn context_value_at(args: Seq<Seq<char>>, i: int) -> Option<Seq<char>> {
    if is_flag(args[i]) {
        spec_get_value(args[i], "--context"@, token_after(args, i))
    } else {
        None
    }
}

/// The namespace override contributed by the token at `i`, if any; the short
/// alias `-n` is examined after the long name, so it would prevail if a token
/// somehow matched both.
pub open spec fn namespace_value_at(args: Seq<Seq<char>>, i: int) -> Option<Seq<char>> {
    if is_flag(args[i]) {
        prefer(
            spec_get_value(args[i], "-n"@, token_after(args, i)),
            spec_get_value(args[i], "--namespace"@, token_after(args, i)),
        )
    } else {
        None
    }
}

/// The context override of the scan from position `i` on: the latest
/// occurrence wins.
pub open spec fn scan_context(args: Seq<Seq<char>>, i: int) -> Option<Seq<char>>
    decreases args.len() - i,
{
    if i >= args.len() {
        None
    } else {
        prefer(scan_context(args, step(args, i)), context_value_at(args, i))
    }
}

/// The namespace override of the scan from position `i` on: the latest
/// occurrence wins.
pub open spec fn scan_namespace(args: Seq<Seq<char>>, i: int) -> Option<Seq<char>>
    decreases args.len() - i,
{
    if i >= args.len() {
        None
    } else {
        prefer(scan_namespace(args, step(args, i)), namespace_value_at(args, i))
    }
}

/// The subcommand of the scan from position `i` on: the first token that is
/// not a flag and was not consumed as a flag's value.
pub open spec fn scan_command(args: Seq<Seq<char>>, i: int) -> Option<Seq<char>>
    decreases args.len() - i,
{
    if i >= args.len() {
        None
    } else if is_flag(args[i]) {
        scan_command(args, step(args, i))
    } else {
        Some(args[i])
    }
}

/// Whether a token writes the context flag, in either of its two forms.
pub open spec fn mentions_context_flag(t: Seq<char>) -> bool {
    t == "--context"@ || has_assignment(t, "--context"@)
}

/// Whether a token writes the namespace flag or its short alias, in either
/// of their two forms.
pub open spec fn mentions_namespace_flag(t: Seq<char>) -> bool {
    ||| t == "--namespace"@
    ||| t == "-n"@
    ||| has_assignment(t, "--namespace"@)
    ||| has_assignment(t, "-n"@)
}

/// Arguments in which no token writes the context flag scan to no context
/// override.
pub proof fn lemma_scan_without_context_flags(args: Seq<Seq<char>>, i: int)
    requires
        0 <= i,
        forall|j: int| 0 <= j < args.len() ==> !mentions_context_flag(#[trigger] args[j]),
    ensures
        scan_context(args, i) is None,
    decreases args.len() - i,
{
    if i < args.len() {
        assert(!mentions_context_flag(args[i]));
        lemma_scan_without_context_flags(args, step(args, i));
    }
}

/// Arguments in which no token writes the namespace flag or its short alias
/// scan to no namespace override.
pub proof fn lemma_scan_without_namespace_flags(args: Seq<Seq<char>>, i: int)
    requires
        0 <= i,
        forall|j: int| 0 <= j < args.len() ==> !mentions_namespace_flag(#[trigger] args[j]),
    ensures
        scan_namespace(args, i) is None,
    decreases args.len() - i,
{
    if i < args.len() {
        assert(!mentions_namespace_flag(args[i]));
        lemma_scan_without_namespace_flags(args, step(args, i));
    }
}

/// Whether the scan from position `i` steps exactly to the end of `args`:
/// no recognized flag name stands alone at the last position, still waiting
/// for a value.
pub open spec fn scan_complete(args: Seq<Seq<char>>, i: int) -> bool
    decreases args.len() - i,
{
    if i >= args.len() {
        true
    } else if (args[i] == "--context"@ || args[i] == "--namespace"@ || args[i] == "-n"@) && i + 1
        == args.len() {
        false
    } else {
        scan_complete(args, step(args, i))
    }
}

proof fn lemma_scan_shift(a: Seq<Seq<char>>, b: Seq<Seq<char>>, j: int)
    requires
        0 <= j <= b.len(),
    ensures
        scan_context(a + b, a.len() + j) == scan_context(b, j),
        scan_namespace(a + b, a.len() + j) == scan_namespace(b, j),
        scan_command(a + b, a.len() + j) == scan_command(b, j),
    decreases b.len() - j,
{
    let ab = a + b;
    let i = a.len() + j;
    if j < b.len() {
        assert(ab[i] == b[j]);
        if j + 1 < b.len() {
            assert(ab[i + 1] == b[j + 1]);
        }
        assert(token_after(ab, i) == token_after(b, j));
        assert(consumes_next(ab, i) == consumes_next(b, j));
        assert(step(ab, i) == a.len() + step(b, j));
        lemma_scan_shift(a, b, step(b, j));
        assert(context_value_at(ab, i) == context_value_at(b, j));
        assert(namespace_value_at(ab, i) == namespace_value_at(b, j));
    }
}

proof fn lemma_scan_concat(a: Seq<Seq<char>>, b: Seq<Seq<char>>, i: int)
    requires
        0 <= i <= a.len(),
        scan_complete(a, i),
    ensures
        scan_context(a + b, i) == prefer(scan_context(b, 0), scan_context(a, i)),
        scan_namespace(a + b, i) == prefer(scan_namespace(b, 0), scan_namespace(a, i)),
        scan_command(a + b, i) == prefer(scan_command(a, i), scan_command(b, 0)),
    decreases a.len() - i,
{
    let ab = a + b;
    if i == a.len() {
        lemma_scan_shift(a, b, 0);
    } else {
        assert(ab[i] == a[i]);
        assert(!((a[i] == "--context"@ || a[i] == "--namespace"@ || a[i] == "-n"@) && i + 1
            == a.len()));
        assert(consumes_next(ab, i) == consumes_next(a, i));
        assert(step(ab, i) == step(a, i));
        if i + 1 < a.len() {
            assert(ab[i + 1] == a[i + 1]);
            assert(token_after(ab, i) == token_after(a, i));
        } else {
            assert(a[i] != "--context"@ && a[i] != "--namespace"@ && a[i] != "-n"@);
        }
        assert(context_value_at(ab, i) == context_value_at(a, i));
        assert(namespace_value_at(ab, i) == namespace_value_at(a, i));
        lemma_scan_concat(a, b, step(a, i));
    }
}

/// Later occurrences of a flag overwrite earlier ones.  When the argument
/// vector splits into a first part that the scan steps through completely
/// and a later part, an override scanned from the later part is the one that
/// stands, whatever the first part held; the subcommand, by contrast, is
/// taken from the first part that has one.
pub proof fn lemma_last_occurrence_wins(a: Seq<Seq<char>>, b: Seq<Seq<char>>)
    requires
        scan_complete(a, 0),
    ensures
        scan_context(a + b, 0) == prefer(scan_context(b, 0), scan_context(a, 0)),
        scan_namespace(a + b, 0) == prefer(scan_namespace(b, 0), scan_namespace(a, 0)),
        scan_command(a + b, 0) == prefer(scan_command(a, 0), scan_command(b, 0)),
{
    lemma_scan_concat(a, b, 0);
}

/// Scan the whole argument vector for the recognized overrides and the
/// subcommand.
pub fn from_args(args: &Vec<String>) -> (r: Opts)
    ensures
        r.context.deep_view() == scan_context(args.deep_view(), 0),
        r.namespace.deep_view() == scan_namespace(args.deep_view(), 0),
        r.first_command.deep_view() == scan_command(args.deep_view(), 0),
{
    let ghost tokens = args.deep_view();
    let mut context: Option<String> = None;
    let mut namespace: Option<String> = None;
    let mut first_command: Option<String> = None;
    let mut i: usize = 0;
    while i < args.len()
        invariant
            i <= args.len(),
            tokens == args.deep_view(),
            tokens.len() == args.len(),
            scan_context(tokens, 0) == prefer(scan_context(tokens, i as int), context.deep_view()),
            scan_namespace(tokens, 0) == prefer(
                scan_namespace(tokens, i as int),
                namespace.deep_view(),
            ),
            scan_command(tokens, 0) == prefer(
                first_command.deep_view(),
                scan_command(tokens, i as int),
            ),
        decreases args.len() - i,
    {
        let ghost pos = i as int;
        proof {
            assert(tokens[pos] == args@[pos].deep_view());
        }
        let fragment = &args[i];
        let next: Option<&String> = if i + 1 < args.len() {
            proof {
                assert(tokens[pos + 1] == args@[pos + 1].deep_view());
            }
            Some(&args[i + 1])
        } else {
            None
        };
        proof {
            assert(next.deep_view() == token_after(tokens, pos));
        }
        if is_flag_token(fragment.as_str()) {
            let consumes = (str_eq(fragment.as_str(), "--context") || str_eq(
                fragment.as_str(),
                "--namespace",
            ) || str_eq(fragment.as_str(), "-n")) && i + 1 < args.len();
            proof {
                assert(consumes == consumes_next(tokens, pos));
                assert(scan_context(tokens, pos) == prefer(
                    scan_context(tokens, step(tokens, pos)),
                    context_value_at(tokens, pos),
                ));
                assert(scan_namespace(tokens, pos) == prefer(
                    scan_namespace(tokens, step(tokens, pos)),
                    namespace_value_at(tokens, pos),
                ));
                assert(scan_command(tokens, pos) == scan_command(tokens, step(tokens, pos)));
            }
            if let Some(value) = get_value(fragment.as_str(), "--context", next) {
                context = Some(value);
            }
            if let Some(value) = get_value(fragment.as_str(), "--namespace", next) {
                namespace = Some(value);
            }
            if let Some(value) = get_value(fragment.as_str(), "-n", next) {
                namespace = Some(value);
            }
            if consumes {
                i += 2;
            } else {
                i += 1;
            }
        } else {
            proof {
                if tokens[pos] == "--context"@ || tokens[pos] == "--namespace"@ || tokens[pos]
                    == "-n"@ {
                    reveal_strlit("--context");
                    reveal_strlit("--namespace");
                    reveal_strlit("-n");
                    assert(is_flag(tokens[pos]));
                }
                assert(!consumes_next(tokens, pos));
                assert(scan_context(tokens, pos) == scan_context(tokens, pos + 1));
                assert(scan_namespace(tokens, pos) == scan_namespace(tokens, pos + 1));
                assert(scan_command(tokens, pos) == Some(tokens[pos]));
            }
            if first_command.is_none() {
                first_command = Some(fragment.clone());
            }
            i += 1;
        }
    }
    proof {
        assert(scan_context(tokens, i as int) is None);
        assert(scan_namespace(tokens, i as int) is None);
        assert(scan_command(tokens, i as int) is None);
    }
    Opts { context, namespace, first_command }
}

} // verus!
