//! The configuration document as a generic tree of mappings, sequences and scalars.
use vstd::prelude::*;

use crate::text::text_eq;

verus! {

/// A node of a parsed configuration document.
#[derive(Debug)]
pub enum ConfigNode {
    /// A string scalar.
    Str(String),
    /// An integer scalar.
    Int(i64),
    /// A boolean scalar.
    Bool(bool),
    /// Any other scalar, kept as written.
    Other(String),
    /// The null scalar.
    Null,
    /// A sequence of nodes.
    List(Vec<ConfigNode>),
    /// A mapping, as its key and value pairs in document order.
    Mapping(Vec<(ConfigNode, ConfigNode)>),
}

/// Whether `node` is the string scalar `s`.
pub open spec fn is_str(node: ConfigNode, s: Seq<char>) -> bool {
    match node {
        ConfigNode::Str(t) => t@ == s,
        _ => false,
    }
}

/// The value of the first entry whose key is the string scalar `key`.
pub open spec fn lookup(entries: Seq<(ConfigNode, ConfigNode)>, key: Seq<char>) -> Option<ConfigNode>
    decreases entries.len(),
{
    if entries.len() == 0 {
        None
    } else if is_str(entries[0].0, key) {
        Some(entries[0].1)
    } else {
        lookup(entries.drop_first(), key)
    }
}

impl ConfigNode {
    /// Whether this node is the string scalar `s`.
    pub fn is_str_eq(&self, s: &str) -> (r: bool)
        ensures
            r == is_str(*self, s@),
    {
        match self {
            ConfigNode::Str(t) => text_eq(t.as_str(), s),
            _ => false,
        }
    }
}

/// The value of the first entry whose key is the string scalar `key`.
pub fn get<'a>(entries: &'a Vec<(ConfigNode, ConfigNode)>, key: &str) -> (r: Option<&'a ConfigNode>)
    ensures
        r.is_none() <==> lookup(entries@, key@).is_none(),
        r.is_some() ==> *r.unwrap() == lookup(entries@, key@).unwrap(),
{
    let mut i: usize = 0;
    assert(entries@.skip(0) =~= entries@);
    while i < entries.len()
        invariant
            i <= entries@.len(),
            lookup(entries@, key@) == lookup(entries@.skip(i as int), key@),
        decreases entries@.len() - i,
    {
        assert(entries@.skip(i as int).drop_first() =~= entries@.skip(i as int + 1));
        if entries[i].0.is_str_eq(key) {
            return Some(&entries[i].1);
        }
        i = i + 1;
    }
    None
}

} // verus!
