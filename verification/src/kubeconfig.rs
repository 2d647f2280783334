//! The persisted cluster configuration: its in-memory form and the loader
//! that builds it from the text of the configuration document.
//!
//! The document must hold a string field `current-context` and may hold a
//! sequence `contexts` of entries, each with a string `name` and an optional
//! string under `context.namespace`.  A missing or non-sequence `contexts`
//! field leaves the context list empty; a missing per-context namespace is
//! not an error, it resolves later to the literal default.

use vstd::prelude::*;

use crate::document::{spec_key, spec_str_under, YamlNode};
use crate::error::Error;
use crate::yaml;
use crate::yaml::{yaml_docs_of, yaml_well_formed, MAX_DOCUMENT_LEN};

verus! {

/// The optional default namespace of a context entry.
#[derive(Clone, Debug)]
pub struct KubeContextMetadata {
    pub namespace: Option<String>,
}

/// A named cluster-connection profile.
#[derive(Clone, Debug)]
pub struct KubeContext {
    pub name: String,
    pub context: KubeContextMetadata,
}

/// The parsed configuration document.
#[derive(Clone, Debug)]
pub struct KubeConfig {
    pub current_context: String,
    pub contexts: Vec<KubeContext>,
}

/// The `current-context` text of a document, if it is a string field.
pub open spec fn spec_current_context(doc: YamlNode) -> Option<Seq<char>> {
    spec_str_under(doc, "current-context"@)
}

/// The context entries of a document: the elements of its `contexts`
/// sequence, or none at all when that field is missing or not a sequence.
pub open spec fn spec_entries(doc: YamlNode) -> Seq<YamlNode> {
    match spec_key(doc, "contexts"@) {
        Some(node) => match node {
            YamlNode::Sequence(elements) => elements@,
            _ => Seq::empty(),
        },
        None => Seq::empty(),
    }
}

/// The `name` text of a context entry, if it is a string field.
pub open spec fn spec_entry_name(entry: YamlNode) -> Option<Seq<char>> {
    spec_str_under(entry, "name"@)
}

/// The `context.namespace` text of a context entry, if present as a string.
pub open spec fn spec_entry_namespace(entry: YamlNode) -> Option<Seq<char>> {
    match spec_key(entry, "context"@) {
        Some(nested) => spec_str_under(nested, "namespace"@),
        None => None,
    }
}

/// Whether a parsed document stream is structurally incomplete: no document
/// at all, no string `current-context`, or a context entry without a string
/// `name`.
pub open spec fn spec_malformed(docs: Seq<YamlNode>) -> bool {
    ||| docs.len() == 0
    ||| spec_current_context(docs[0]) is None
    ||| exists|i: int|
        0 <= i < spec_entries(docs[0]).len() && spec_entry_name(
            #[trigger] spec_entries(docs[0])[i],
        ) is None
}

/// Whether one in-memory context entry carries exactly what a document
/// entry holds.
pub open spec fn entry_matches(context: KubeContext, entry: YamlNode) -> bool {
    &&& spec_entry_name(entry) matches Some(name) && context.name@ == name
    &&& (context.context.namespace is Some <==> spec_entry_namespace(entry) is Some)
    &&& (context.context.namespace matches Some(namespace) ==> spec_entry_namespace(entry)
        == Some(namespace@))
}

/// Whether a loader result is exactly what the parsed document stream
/// demands: the malformed error on an incomplete stream, and otherwise the
/// configuration with the document's `current-context` and its entries in
/// order.
pub open spec fn config_matches(r: Result<KubeConfig, Error>, docs: Seq<YamlNode>) -> bool {
    if spec_malformed(docs) {
        r matches Err(e) && e matches Error::MalformedKubeconfig
    } else {
        let doc = docs[0];
        let entries = spec_entries(doc);
        &&& r matches Ok(config)
        &&& Some(config.current_context@) == spec_current_context(doc)
        &&& config.contexts@.len() == entries.len()
        &&& forall|i: int|
            0 <= i < entries.len() ==> entry_matches(#[trigger] config.contexts@[i], entries[i])
    }
}

/// Whether a loader result is the parse-kind error.
pub open spec fn is_parse_error(r: Result<KubeConfig, Error>) -> bool {
    match r {
        Err(Error::KubeconfigParse(_)) => true,
        _ => false,
    }
}

/// Build one context entry from the plain values read out of the document:
/// an entry without a name makes the whole document malformed, while a
/// missing namespace is kept as such.
pub fn context_from_fields(name: Option<String>, namespace: Option<String>) -> (r: Result<
    KubeContext,
    Error,
>)
    ensures
        match name {
            Some(n) => {
                &&& r matches Ok(c)
                &&& c.name == n
                &&& c.context.namespace == namespace
            },
            None => r matches Err(e) && e matches Error::MalformedKubeconfig,
        },
{
    match name {
        Some(n) => Ok(KubeContext { name: n, context: KubeContextMetadata { namespace } }),
        None => Err(Error::MalformedKubeconfig),
    }
}

/// Assemble the configuration from the plain values read out of the
/// document: a document without a string `current-context` is malformed.
pub fn config_from_fields(current_context: Option<String>, contexts: Vec<KubeContext>) -> (r:
    Result<KubeConfig, Error>)
    ensures
        match current_context {
            Some(c) => {
                &&& r matches Ok(k)
                &&& k.current_context == c
                &&& k.contexts == contexts
            },
            None => r matches Err(e) && e matches Error::MalformedKubeconfig,
        },
{
    match current_context {
        Some(c) => Ok(KubeConfig { current_context: c, contexts }),
        None => Err(Error::MalformedKubeconfig),
    }
}

/// Parse the text of the configuration document.  A stream that is not
/// valid YAML is a parse error, and nothing else is; a structurally
/// incomplete stream is malformed; and otherwise the returned configuration
/// holds the document's `current-context` and its entries in order, name
/// and optional namespace each.
pub fn parse(contents: &str) -> (r: Result<KubeConfig, Error>)
    requires
        contents@.len() <= MAX_DOCUMENT_LEN,
    ensures
        is_parse_error(r) <==> !yaml_well_formed(contents@),
        yaml_well_formed(contents@) ==> config_matches(r, yaml_docs_of(contents@)),
        r matches Err(e) ==> (e matches Error::KubeconfigParse(_) || e matches
            Error::MalformedKubeconfig),
{
    let documents = match yaml::load_tree(contents) {
        Ok(docs) => docs,
        Err(scan_error) => {
            return Err(Error::KubeconfigParse(scan_error));
        },
    };
    let ghost docs = documents@;
    if documents.len() == 0 {
        return Err(Error::MalformedKubeconfig);
    }
    let document = &documents[0];
    let ghost entries = spec_entries(docs[0]);
    let mut contexts: Vec<KubeContext> = Vec::new();
    let maybe_elements: Option<&Vec<YamlNode>> = match document.key("contexts") {
        Some(node) => node.items(),
        None => None,
    };
    if let Some(elements) = maybe_elements {
        proof {
            assert(entries == elements@);
        }
        let count = elements.len();
        let mut i: usize = 0;
        while i < count
            invariant
                count == elements.len(),
                elements@ == entries,
                i <= count,
                contexts@.len() == i,
                forall|j: int| 0 <= j < i ==> entry_matches(#[trigger] contexts@[j], entries[j]),
                forall|j: int| 0 <= j < i ==> spec_entry_name(#[trigger] entries[j]) is Some,
                yaml_well_formed(contents@),
                docs == yaml_docs_of(contents@),
                docs.len() > 0,
                entries == spec_entries(docs[0]),
            decreases count - i,
        {
            let entry = &elements[i];
            let name: Option<String> = match entry.key("name") {
                Some(name_node) => match name_node.scalar() {
                    Some(text) => Some(text.clone()),
                    None => None,
                },
                None => None,
            };
            let namespace: Option<String> = match entry.key("context") {
                Some(nested) => match nested.key("namespace") {
                    Some(namespace_node) => match namespace_node.scalar() {
                        Some(text) => Some(text.clone()),
                        None => None,
                    },
                    None => None,
                },
                None => None,
            };
            match context_from_fields(name, namespace) {
                Ok(context) => contexts.push(context),
                Err(e) => {
                    proof {
                        assert(spec_entry_name(spec_entries(docs[0])[i as int]) is None);
                        assert(spec_malformed(docs));
                    }
                    return Err(e);
                },
            }
            i += 1;
        }
    } else {
        proof {
            assert(entries =~= Seq::<YamlNode>::empty());
        }
    }
    let current_context: Option<String> = match document.key("current-context") {
        Some(node) => match node.scalar() {
            Some(text) => Some(text.clone()),
            None => None,
        },
        None => None,
    };
    proof {
        if current_context is None {
            assert(spec_malformed(docs));
        } else {
            assert(!spec_malformed(docs));
        }
    }
    config_from_fields(current_context, contexts)
}

} // verus!
