//! The library's model of a parsed configuration document: a tree of plain
//! values.  Only what the loader reads is distinguished — string scalars,
//! sequences, and mappings with their keys — while every other node kind is
//! a single opaque [`YamlNode::Other`].  The accessors mirror how the
//! document is read: a string-keyed lookup finds nothing in a non-mapping,
//! and a non-string node has no scalar text.

use vstd::prelude::*;

use crate::strings::str_eq;

verus! {

/// One node of a parsed document.
#[derive(Debug)]
pub enum YamlNode {
    /// A string scalar.
    Scalar(String),
    /// A sequence of nodes.
    Sequence(Vec<YamlNode>),
    /// A mapping, as key-value pairs in document order; a parsed document
    /// never repeats a key.
    Mapping(Vec<(YamlNode, YamlNode)>),
    /// Any other node kind: numbers, booleans, null, aliases.
    Other,
}

/// The first value among `entries` from position `i` on whose key is the
/// string `key`.
pub open spec fn spec_entry_lookup(
    entries: Seq<(YamlNode, YamlNode)>,
    key: Seq<char>,
    i: int,
) -> Option<YamlNode>
    decreases entries.len() - i,
{
    if i >= entries.len() {
        None
    } else if entries[i].0 matches YamlNode::Scalar(s) && s@ == key {
        Some(entries[i].1)
    } else {
        spec_entry_lookup(entries, key, i + 1)
    }
}

/// The value under the string key `key`: nothing when the node is not a
/// mapping or has no such key.
pub open spec fn spec_key(node: YamlNode, key: Seq<char>) -> Option<YamlNode> {
    match node {
        YamlNode::Mapping(entries) => spec_entry_lookup(entries@, key, 0),
        _ => None,
    }
}

/// The scalar text of a node: nothing when the node is not a string scalar.
pub open spec fn spec_scalar(node: YamlNode) -> Option<Seq<char>> {
    match node {
        YamlNode::Scalar(text) => Some(text@),
        _ => None,
    }
}

/// The scalar text found under the string key `key`, if any.
pub open spec fn spec_str_under(node: YamlNode, key: Seq<char>) -> Option<Seq<char>> {
    match spec_key(node, key) {
        Some(value) => spec_scalar(value),
        None => None,
    }
}

impl YamlNode {
    /// The value under the string key `key`, as [`spec_key`] has it.
    pub fn key<'a>(&'a self, key: &str) -> (r: Option<&'a YamlNode>)
        ensures
            match spec_key(*self, key@) {
                Some(value) => r matches Some(found) && *found == value,
                None => r is None,
            },
    {
        match self {
            YamlNode::Mapping(entries) => {
                let mut i: usize = 0;
                while i < entries.len()
                    invariant
                        i <= entries.len(),
                        *self == YamlNode::Mapping(*entries),
                        spec_entry_lookup(entries@, key@, 0) == spec_entry_lookup(
                            entries@,
                            key@,
                            i as int,
                        ),
                    decreases entries.len() - i,
                {
                    if let YamlNode::Scalar(text) = &entries[i].0 {
                        if str_eq(text.as_str(), key) {
                            proof {
                                assert(spec_entry_lookup(entries@, key@, i as int) == Some(
                                    entries@[i as int].1,
                                ));
                            }
                            return Some(&entries[i].1);
                        }
                    }
                    proof {
                        assert(spec_entry_lookup(entries@, key@, i as int) == spec_entry_lookup(
                            entries@,
                            key@,
                            i as int + 1,
                        ));
                    }
                    i += 1;
                }
                None
            },
            _ => None,
        }
    }

    /// The scalar text of the node, as [`spec_scalar`] has it.
    pub fn scalar<'a>(&'a self) -> (r: Option<&'a String>)
        ensures
            match spec_scalar(*self) {
                Some(text) => r matches Some(found) && found@ == text,
                None => r is None,
            },
    {
        match self {
            YamlNode::Scalar(text) => Some(text),
            _ => None,
        }
    }

    /// The elements of a sequence node, or nothing for any other kind.
    pub fn items<'a>(&'a self) -> (r: Option<&'a Vec<YamlNode>>)
        ensures
            match *self {
                YamlNode::Sequence(elements) => r matches Some(found) && *found == elements,
                _ => r is None,
            },
    {
        match self {
            YamlNode::Sequence(elements) => Some(elements),
            _ => None,
        }
    }
}

} // verus!
