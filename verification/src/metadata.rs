//! The metadata resolver: reconciling the configuration with the overrides
//! and subcommand scanned from the argument vector into the effective
//! `(context, namespace, subcommand)` triple.

use vstd::prelude::*;

use crate::error::Error;
use crate::kubeconfig::{KubeConfig, KubeContext};
use crate::opts::{
    consumes_next, context_value_at, from_args, lemma_last_occurrence_wins,
    lemma_scan_without_context_flags, lemma_scan_without_namespace_flags, mentions_context_flag,
    mentions_namespace_flag, scan_command, scan_complete, scan_context, scan_namespace, step,
    token_after,
};
use crate::parse_option::{assignment_value, has_assignment};
use crate::strings::{is_flag, spec_trim, str_eq, str_is_empty};

verus! {

/// The effective target of an invocation, once resolution has succeeded.
#[derive(Clone, Debug)]
pub struct KubectlMetadata {
    pub target_context: String,
    pub target_namespace: String,
    pub command: String,
}

/// A scanned override with an empty value counts as absent: resolution then
/// falls back as if the flag had not been written, so that success never
/// carries an empty string.
pub open spec fn effective_override(value: Option<Seq<char>>) -> Option<Seq<char>> {
    match value {
        Some(v) => if v.len() > 0 {
            Some(v)
        } else {
            None
        },
        None => None,
    }
}

/// The effective context: the scanned override when present and non-empty,
/// the configured current context otherwise.
pub open spec fn spec_target_context(config: KubeConfig, args: Seq<Seq<char>>) -> Seq<char> {
    match effective_override(scan_context(args, 0)) {
        Some(name) => name,
        None => config.current_context@,
    }
}

/// The first entry of `contexts` from position `i` on whose name is `name`.
pub open spec fn spec_lookup(contexts: Seq<KubeContext>, name: Seq<char>, i: int) -> Option<
    KubeContext,
>
    decreases contexts.len() - i,
{
    if i >= contexts.len() {
        None
    } else if contexts[i].name@ == name {
        Some(contexts[i])
    } else {
        spec_lookup(contexts, name, i + 1)
    }
}

/// The namespace an entry contributes: its configured default, or the
/// literal `"default"` when none is configured; an empty configured value
/// counts as no configured default.
pub open spec fn spec_namespace_fallback(entry: KubeContext) -> Seq<char> {
    match entry.context.namespace {
        Some(namespace) => if namespace@.len() > 0 {
            namespace@
        } else {
            "default"@
        },
        None => "default"@,
    }
}

/// The outcome that resolution owes for a configuration and an argument
/// vector.
pub enum Resolution {
    Resolved { context: Seq<char>, namespace: Seq<char>, command: Seq<char> },
    ContextNotFound { name: Seq<char> },
    NoCommand,
}

/// What `resolve` must return: the scanned overrides win; without a
/// namespace override the effective context must have an entry in the
/// configuration, whose configured namespace (or the literal default) is
/// used; and a subcommand must have been scanned.  The context lookup is
/// consulted only on the fallback path, and its failure outranks a missing
/// subcommand.  An empty override counts as absent, and an empty effective
/// context name is not addressable: it is reported as not found, so that
/// success always carries non-empty context and namespace strings.
pub open spec fn spec_resolve(config: KubeConfig, args: Seq<Seq<char>>) -> Resolution {
    let context = spec_target_context(config, args);
    if context.len() == 0 {
        Resolution::ContextNotFound { name: context }
    } else {
        spec_resolve_named(config, args, context)
    }
}

/// The outcome once the effective context is known and non-empty.
pub open spec fn spec_resolve_named(
    config: KubeConfig,
    args: Seq<Seq<char>>,
    context: Seq<char>,
) -> Resolution {
    match effective_override(scan_namespace(args, 0)) {
        Some(namespace) => match scan_command(args, 0) {
            Some(command) => Resolution::Resolved { context, namespace, command },
            None => Resolution::NoCommand,
        },
        None => match spec_lookup(config.contexts@, context, 0) {
            Some(entry) => match scan_command(args, 0) {
                Some(command) => Resolution::Resolved {
                    context,
                    namespace: spec_namespace_fallback(entry),
                    command,
                },
                None => Resolution::NoCommand,
            },
            None => Resolution::ContextNotFound { name: context },
        },
    }
}

/// Whether an executable result carries exactly the outcome `o`.
pub open spec fn resolution_matches(r: Result<KubectlMetadata, Error>, o: Resolution) -> bool {
    match o {
        Resolution::Resolved { context, namespace, command } => {
            &&& r matches Ok(m)
            &&& m.target_context@ == context
            &&& m.target_namespace@ == namespace
            &&& m.command@ == command
        },
        Resolution::ContextNotFound { name } => {
            &&& r matches Err(e)
            &&& e matches Error::CurrentContextNotFound(n)
            &&& n@ == name
        },
        Resolution::NoCommand => r matches Err(e) && e matches Error::NoCommandSpecified,
    }
}

/// The first context entry with the given name, as the configuration's
/// lookup rule has it: earlier entries shadow later ones of the same name.
fn lookup<'a>(contexts: &'a Vec<KubeContext>, name: &str) -> (r: Option<&'a KubeContext>)
    ensures
        match spec_lookup(contexts@, name@, 0) {
            Some(entry) => r matches Some(found) && *found == entry,
            None => r is None,
        },
{
    let mut i: usize = 0;
    while i < contexts.len()
        invariant
            i <= contexts.len(),
            spec_lookup(contexts@, name@, 0) == spec_lookup(contexts@, name@, i as int),
        decreases contexts.len() - i,
    {
        if str_eq(contexts[i].name.as_str(), name) {
            return Some(&contexts[i]);
        }
        i += 1;
    }
    None
}

/// Resolve the effective context, namespace and subcommand of an invocation
/// from the configuration and the raw argument vector.  On success both the
/// target context and the target namespace are non-empty.
pub fn from(kube_config: KubeConfig, args: &Vec<String>) -> (r: Result<KubectlMetadata, Error>)
    ensures
        resolution_matches(r, spec_resolve(kube_config, args.deep_view())),
        r matches Ok(m) ==> m.target_context@.len() > 0 && m.target_namespace@.len() > 0,
{
    proof {
        lemma_resolved_fields_nonempty(kube_config, args.deep_view());
    }
    let opts = from_args(args);
    let target_context: String = match opts.context {
        Some(context) => {
            if str_is_empty(context.as_str()) {
                kube_config.current_context.clone()
            } else {
                context
            }
        },
        None => kube_config.current_context.clone(),
    };
    if str_is_empty(target_context.as_str()) {
        return Err(Error::CurrentContextNotFound(target_context));
    }
    let namespace_override: Option<String> = match opts.namespace {
        Some(namespace) => {
            if str_is_empty(namespace.as_str()) {
                None
            } else {
                Some(namespace)
            }
        },
        None => None,
    };
    let target_namespace: String = match namespace_override {
        Some(namespace) => namespace,
        None => match lookup(&kube_config.contexts, target_context.as_str()) {
            Some(entry) => match &entry.context.namespace {
                Some(namespace) => {
                    if str_is_empty(namespace.as_str()) {
                        "default".to_string()
                    } else {
                        namespace.clone()
                    }
                },
                None => "default".to_string(),
            },
            None => {
                return Err(Error::CurrentContextNotFound(target_context));
            },
        },
    };
    let command: String = match opts.first_command {
        Some(command) => command,
        None => {
            return Err(Error::NoCommandSpecified);
        },
    };
    Ok(KubectlMetadata { target_context, target_namespace, command })
}

/// For any arguments whose scan carries a non-empty context override, the
/// resolved target context is that override, whatever the configuration
/// holds.  (An empty override counts as absent: see the next lemma.)
pub proof fn lemma_context_override_wins(
    config: KubeConfig,
    args: Seq<Seq<char>>,
    name: Seq<char>,
)
    requires
        scan_context(args, 0) == Some(name),
        name.len() > 0,
    ensures
        spec_target_context(config, args) == name,
{
}

/// A context override scanned as the empty string counts as absent, and the
/// configured current context stands.
pub proof fn lemma_empty_override_is_absent(config: KubeConfig, args: Seq<Seq<char>>)
    requires
        scan_context(args, 0) == Some(Seq::<char>::empty()),
    ensures
        spec_target_context(config, args) == config.current_context@,
{
}

/// Appending `--context` and a name to arguments that the scan steps through
/// completely makes that name the resolved target context, whatever the
/// configuration and the earlier arguments hold.
pub proof fn lemma_appended_context_flag_wins(
    config: KubeConfig,
    a: Seq<Seq<char>>,
    name: Seq<char>,
)
    requires
        scan_complete(a, 0),
        name.len() > 0,
    ensures
        spec_target_context(config, a + seq!["--context"@, name]) == name,
{
    let b: Seq<Seq<char>> = seq!["--context"@, name];
    reveal_strlit("--context");
    assert(consumes_next(b, 0));
    assert(step(b, 0) == 2);
    assert(scan_context(b, 2) is None);
    assert(is_flag(b[0]));
    assert(token_after(b, 0) == Some(name));
    assert(context_value_at(b, 0) == Some(name));
    assert(scan_context(b, 0) == Some(name));
    lemma_last_occurrence_wins(a, b);
}

/// Appending one token `--context=<name>` to arguments that the scan steps
/// through completely makes the trimmed name the resolved target context,
/// whatever the configuration and the earlier arguments hold.
pub proof fn lemma_appended_context_assignment_wins(
    config: KubeConfig,
    a: Seq<Seq<char>>,
    name: Seq<char>,
)
    requires
        scan_complete(a, 0),
        spec_trim(name).len() > 0,
    ensures
        spec_target_context(config, a + seq!["--context="@ + name]) == spec_trim(name),
{
    let token = "--context="@ + name;
    let b: Seq<Seq<char>> = seq![token];
    reveal_strlit("--context");
    reveal_strlit("--context=");
    reveal_strlit("--namespace");
    reveal_strlit("-n");
    assert(token[0] == '-');
    assert(is_flag(token));
    assert(token != "--context"@ && token != "--namespace"@ && token != "-n"@) by {
        assert(token.len() >= 10);
        if token.len() == 11 {
            assert(token[2] == 'c' && "--namespace"@[2] == 'n');
        }
    }
    assert(!consumes_next(b, 0));
    assert(step(b, 0) == 1);
    assert(scan_context(b, 1) is None);
    assert(has_assignment(token, "--context"@)) by {
        assert(token.subrange(0, 10) =~= "--context"@.push('='));
    }
    assert(assignment_value(token, "--context"@) =~= name);
    assert(context_value_at(b, 0) == Some(spec_trim(name)));
    assert(scan_context(b, 0) == Some(spec_trim(name)));
    lemma_last_occurrence_wins(a, b);
}

/// Arguments in which no token writes the context flag or the namespace flag
/// leave resolution entirely to the configuration: the current context is
/// the target, and its entry supplies the namespace.  The current context is
/// assumed non-empty, since an empty one is never resolvable.
pub proof fn lemma_untouched_arguments_use_configuration(
    config: KubeConfig,
    args: Seq<Seq<char>>,
)
    requires
        config.current_context@.len() > 0,
        forall|j: int| 0 <= j < args.len() ==> !mentions_context_flag(#[trigger] args[j]),
        forall|j: int| 0 <= j < args.len() ==> !mentions_namespace_flag(#[trigger] args[j]),
    ensures
        spec_target_context(config, args) == config.current_context@,
        spec_lookup(config.contexts@, config.current_context@, 0) matches Some(entry) ==> (
        match scan_command(args, 0) {
            Some(command) => spec_resolve(config, args) == (Resolution::Resolved {
                context: config.current_context@,
                namespace: spec_namespace_fallback(entry),
                command,
            }),
            None => spec_resolve(config, args) == Resolution::NoCommand,
        }),
        spec_lookup(config.contexts@, config.current_context@, 0) is None ==> spec_resolve(
            config,
            args,
        ) == (Resolution::ContextNotFound { name: config.current_context@ }),
{
    lemma_scan_without_context_flags(args, 0);
    lemma_scan_without_namespace_flags(args, 0);
    lemma_configuration_fallback(config, args);
}

/// With neither a context nor a namespace override among the arguments,
/// resolution falls back to the configured current context; the namespace is
/// that context's configured one, or the literal `"default"` when none is
/// configured, and an absent entry is the lookup failure.  The current
/// context is assumed non-empty, since an empty one is never resolvable.
pub proof fn lemma_configuration_fallback(config: KubeConfig, args: Seq<Seq<char>>)
    requires
        config.current_context@.len() > 0,
        scan_context(args, 0) is None,
        scan_namespace(args, 0) is None,
    ensures
        spec_target_context(config, args) == config.current_context@,
        spec_lookup(config.contexts@, config.current_context@, 0) matches Some(entry) ==> (
        match scan_command(args, 0) {
            Some(command) => spec_resolve(config, args) == (Resolution::Resolved {
                context: config.current_context@,
                namespace: spec_namespace_fallback(entry),
                command,
            }),
            None => spec_resolve(config, args) == Resolution::NoCommand,
        }),
        spec_lookup(config.contexts@, config.current_context@, 0) is None ==> spec_resolve(
            config,
            args,
        ) == (Resolution::ContextNotFound { name: config.current_context@ }),
{
}

/// The data-model invariant: successful resolution yields a non-empty
/// target context and a non-empty target namespace, for every configuration
/// and every argument vector.  An empty override counts as absent, an empty
/// effective context is reported as not found, and an empty configured
/// namespace falls back to the literal default.  (The subcommand is any
/// first non-flag token, the empty token included.)
pub proof fn lemma_resolved_fields_nonempty(config: KubeConfig, args: Seq<Seq<char>>)
    ensures
        spec_resolve(config, args) matches Resolution::Resolved { context, namespace, command }
            ==> context.len() > 0 && namespace.len() > 0,
{
    reveal_strlit("default");
}

/// Whether two resolution results agree in every observable field: the same
/// variant, with equal triples or equal error contents.
pub open spec fn results_agree(
    r1: Result<KubectlMetadata, Error>,
    r2: Result<KubectlMetadata, Error>,
) -> bool {
    match (r1, r2) {
        (Ok(m1), Ok(m2)) => {
            &&& m1.target_context@ == m2.target_context@
            &&& m1.target_namespace@ == m2.target_namespace@
            &&& m1.command@ == m2.command@
        },
        (
            Err(Error::CurrentContextNotFound(n1)),
            Err(Error::CurrentContextNotFound(n2)),
        ) => n1@ == n2@,
        (Err(Error::NoCommandSpecified), Err(Error::NoCommandSpecified)) => true,
        _ => false,
    }
}

/// Resolution is a function of the configuration and the arguments alone:
/// any two results that meet the resolver's contract on the same inputs
/// agree in every observable field, so calling `from` twice with identical
/// inputs yields identical output.
pub proof fn lemma_resolution_deterministic(
    config: KubeConfig,
    args: Seq<Seq<char>>,
    r1: Result<KubectlMetadata, Error>,
    r2: Result<KubectlMetadata, Error>,
)
    requires
        resolution_matches(r1, spec_resolve(config, args)),
        resolution_matches(r2, spec_resolve(config, args)),
    ensures
        results_agree(r1, r2),
{
}

} // verus!
