//! Trusted declarations for the YAML parser that reads the configuration
//! document.  One trusted loader turns the text into the library's own
//! document model ([`YamlNode`]); everything read out of the tree afterwards
//! is verified code.

use vstd::prelude::*;

use crate::document::YamlNode;

verus! {

#[verifier::external_type_specification]
#[verifier::external_body]
pub struct ExYaml(yaml_rust2::Yaml);

#[verifier::external_type_specification]
#[verifier::external_body]
pub struct ExScanError(yaml_rust2::ScanError);

/// The longest document text the loader accepts.  The parser nests block
/// collections by recursion, one call frame per level, and a document's
/// nesting depth can grow linearly in its length; this bound keeps the
/// recursion well inside the call stack (a machine limit), at most about
/// 32768 levels for a default 8 MiB stack.
pub const MAX_DOCUMENT_LEN: usize = 65536;

/// Whether a text is a syntactically valid YAML stream, as the parser
/// decides it.
pub uninterp spec fn yaml_well_formed(source: Seq<char>) -> bool;

/// The parsed document stream of a valid text, in the library's model.
pub uninterp spec fn yaml_docs_of(source: Seq<char>) -> Seq<YamlNode>;

/// Converts one parsed node into the library's document model, one arm per
/// variant of yaml_rust2::Yaml, moving fields: string scalars, sequences and
/// mappings keep their shape and order, and every other kind becomes
/// [`YamlNode::Other`].
#[verifier::external_body]
fn node_from_yaml(node: yaml_rust2::Yaml) -> YamlNode {
    match node {
        yaml_rust2::Yaml::String(text) => YamlNode::Scalar(text),
        yaml_rust2::Yaml::Array(items) => YamlNode::Sequence(
            items.into_iter().map(node_from_yaml).collect(),
        ),
        yaml_rust2::Yaml::Hash(entries) => YamlNode::Mapping(
            entries.into_iter().map(|(k, v)| (node_from_yaml(k), node_from_yaml(v))).collect(),
        ),
        yaml_rust2::Yaml::Real(_) => YamlNode::Other,
        yaml_rust2::Yaml::Integer(_) => YamlNode::Other,
        yaml_rust2::Yaml::Boolean(_) => YamlNode::Other,
        yaml_rust2::Yaml::Alias(_) => YamlNode::Other,
        yaml_rust2::Yaml::Null => YamlNode::Other,
        yaml_rust2::Yaml::BadValue => YamlNode::Other,
    }
}

/// Relies on yaml_rust2::YamlLoader::load_from_str: parses a YAML stream
/// into its documents, or reports the scan error that made it invalid.  The
/// parser is deterministic and pure, so success is a function of the text
/// alone, named by [`yaml_well_formed`], and so are the documents, converted
/// arm-for-arm into the library's model and named by [`yaml_docs_of`].  The
/// parser loads nested block collections by recursion without a depth cap of
/// its own, so a text is admitted only up to [`MAX_DOCUMENT_LEN`].
#[verifier::external_body]
pub(crate) fn load_tree(source: &str) -> (r: Result<Vec<YamlNode>, yaml_rust2::ScanError>)
    requires
        source@.len() <= MAX_DOCUMENT_LEN,
    ensures
        r is Ok <==> yaml_well_formed(source@),
        r matches Ok(docs) ==> docs@ == yaml_docs_of(source@),
{
    match yaml_rust2::YamlLoader::load_from_str(source) {
        Ok(docs) => Ok(docs.into_iter().map(node_from_yaml).collect()),
        Err(scan_error) => Err(scan_error),
    }
}

} // verus!
