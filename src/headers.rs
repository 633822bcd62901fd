//! Header validation through hyper, and an ordered set of response headers.
use vstd::prelude::*;
use std::str::FromStr;

use crate::config::ConfigNode;
use crate::text::{ascii_lower, text_eq};

verus! {

/// Whether a character may stand in a header name: a letter, a digit, or
/// one of ``! " # $ % & ' * + - . ^ _ ` | ~``.
pub open spec fn header_char(c: char) -> bool {
    ||| 'a' <= c <= 'z'
    ||| 'A' <= c <= 'Z'
    ||| '0' <= c <= '9'
    ||| c == '!' || c == '"' || c == '#' || c == '$' || c == '%' || c == '&' || c == '\''
    ||| c == '*' || c == '+' || c == '-' || c == '.'
    ||| c == '^' || c == '_' || c == '`' || c == '|' || c == '~'
}

/// The normalised (lower-case) form of a header name: a name of 1 to 65535
/// header characters; none for any other text.
pub open spec fn header_name_of(s: Seq<char>) -> Option<Seq<char>> {
    if 0 < s.len() <= 65535 && forall|i: int| 0 <= i < s.len() ==> header_char(#[trigger] s[i]) {
        Some(ascii_lower(s))
    } else {
        None
    }
}

/// Whether every character may stand in a header value: visible characters,
/// space and tab, but no other control character and no DEL.
pub open spec fn header_value_valid(v: Seq<char>) -> bool {
    forall|i: int|
        0 <= i < v.len() ==> ((v[i] as u32 >= 32 && v[i] as u32 != 127) || v[i] == '\t')
}

/// Relies on `hyper::header::HeaderName::from_str`: it accepts a name of 1 to
/// `MAX_HEADER_NAME_LEN` (65535) bytes, each of which its `HEADER_CHARS`
/// table maps to a non-zero byte, and returns the mapped, lower-cased name.
#[verifier::external_body]
pub(crate) fn normalize_header_name(s: &str) -> (r: Option<String>)
    ensures
        r.is_none() <==> header_name_of(s@).is_none(),
        r.is_some() ==> r.unwrap()@ == header_name_of(s@).unwrap(),
{
    hyper::header::HeaderName::from_str(s).ok().map(|n| n.as_str().to_string())
}

/// Relies on `hyper::header::HeaderValue::from_str`: it accepts a value exactly
/// when every byte is at least 32 and not 127, or is a tab.
#[verifier::external_body]
pub(crate) fn header_value_accepted(s: &str) -> (r: bool)
    ensures
        r == header_value_valid(s@),
{
    hyper::header::HeaderValue::from_str(s).is_ok()
}

/// A header name and value, as text.
pub open spec fn pair_view(p: (String, String)) -> (Seq<char>, Seq<char>) {
    (p.0@, p.1@)
}

/// Index of the entry named `name`, searching from the end, or -1.
pub open spec fn name_index(s: Seq<(Seq<char>, Seq<char>)>, name: Seq<char>) -> int
    decreases s.len(),
{
    if s.len() == 0 {
        -1
    } else if s.last().0 == name {
        s.len() - 1
    } else {
        name_index(s.drop_last(), name)
    }
}

/// Whether no two entries share a name.
pub open spec fn names_unique(s: Seq<(Seq<char>, Seq<char>)>) -> bool {
    forall|i: int, j: int| 0 <= i < j < s.len() ==> s[i].0 != s[j].0
}

/// `s` with `name` set to `value`: in place when `name` is present, else appended.
pub open spec fn header_insert(
    s: Seq<(Seq<char>, Seq<char>)>,
    name: Seq<char>,
    value: Seq<char>,
) -> Seq<(Seq<char>, Seq<char>)> {
    let i = name_index(s, name);
    if i >= 0 {
        s.update(i, (name, value))
    } else {
        s.push((name, value))
    }
}

pub proof fn lemma_name_index(s: Seq<(Seq<char>, Seq<char>)>, name: Seq<char>)
    ensures
        -1 <= name_index(s, name) < s.len(),
        name_index(s, name) >= 0 ==> s[name_index(s, name)].0 == name,
        name_index(s, name) == -1 ==> forall|j: int| 0 <= j < s.len() ==> s[j].0 != name,
    decreases s.len(),
{
    if s.len() > 0 && s.last().0 != name {
        lemma_name_index(s.drop_last(), name);
        if name_index(s, name) == -1 {
            assert forall|j: int| 0 <= j < s.len() implies s[j].0 != name by {
                if j < s.len() - 1 {
                    assert(s[j] == s.drop_last()[j]);
                }
            }
        }
    }
}

pub proof fn lemma_insert_unique(s: Seq<(Seq<char>, Seq<char>)>, name: Seq<char>, value: Seq<char>)
    requires
        names_unique(s),
    ensures
        names_unique(header_insert(s, name, value)),
{
    lemma_name_index(s, name);
}

/// `s` without the entry named `name`.
pub open spec fn header_remove(s: Seq<(Seq<char>, Seq<char>)>, name: Seq<char>) -> Seq<
    (Seq<char>, Seq<char>),
> {
    let i = name_index(s, name);
    if i >= 0 {
        s.remove(i)
    } else {
        s
    }
}

/// The headers that a `headers` mapping entry contributes, if it is valid.
pub open spec fn entry_header(e: (ConfigNode, ConfigNode)) -> Option<(Seq<char>, Seq<char>)> {
    match (e.0, e.1) {
        (ConfigNode::Str(k), ConfigNode::Str(v)) => match header_name_of(k@) {
            Some(n) => if header_value_valid(v@) {
                Some((n, v@))
            } else {
                None
            },
            None => None,
        },
        _ => None,
    }
}

/// The headers of the first `n` entries of a `headers` mapping, later ones
/// replacing earlier ones of the same name.
pub open spec fn headers_from(entries: Seq<(ConfigNode, ConfigNode)>, n: int) -> Seq<(Seq<char>, Seq<char>)>
    decreases n,
{
    if n <= 0 {
        seq![]
    } else {
        let prev = headers_from(entries, n - 1);
        match entry_header(entries[n - 1]) {
            Some(h) => header_insert(prev, h.0, h.1),
            None => prev,
        }
    }
}

/// The headers that a configuration node describes: none unless it is a mapping.
pub open spec fn headers_model(node: ConfigNode) -> Seq<(Seq<char>, Seq<char>)> {
    match node {
        ConfigNode::Mapping(entries) => headers_from(entries@, entries@.len() as int),
        _ => seq![],
    }
}

/// Response headers: names are normalised and unique, in order of first setting.
#[derive(Debug, Clone)]
pub struct HeaderList {
    entries: Vec<(String, String)>,
}

impl View for HeaderList {
    type V = Seq<(Seq<char>, Seq<char>)>;

    closed spec fn view(&self) -> Seq<(Seq<char>, Seq<char>)> {
        self.entries@.map_values(|p: (String, String)| pair_view(p))
    }
}

impl HeaderList {
    /// Whether no two headers share a name.
    pub open spec fn wf(&self) -> bool {
        names_unique(self@)
    }

    /// No headers.
    pub fn new() -> (r: HeaderList)
        ensures
            r@ == Seq::<(Seq<char>, Seq<char>)>::empty(),
            r.wf(),
    {
        let r = HeaderList { entries: Vec::new() };
        assert(r@ =~= Seq::<(Seq<char>, Seq<char>)>::empty());
        r
    }

    /// A copy of these headers.
    pub fn copy(&self) -> (r: HeaderList)
        ensures
            r@ == self@,
    {
        let mut entries: Vec<(String, String)> = Vec::new();
        let mut i: usize = 0;
        while i < self.entries.len()
            invariant
                i <= self.entries@.len(),
                entries@.len() == i,
                forall|j: int| 0 <= j < i ==> pair_view(#[trigger] entries@[j]) == self@[j],
            decreases self.entries@.len() - i,
        {
            let name = self.entries[i].0.clone();
            let value = self.entries[i].1.clone();
            assert(self@[i as int] == pair_view(self.entries@[i as int]));
            entries.push((name, value));
            i = i + 1;
        }
        let r = HeaderList { entries };
        assert(r@ =~= self@);
        r
    }

    /// The number of headers.
    pub fn len(&self) -> (r: usize)
        ensures
            r == self@.len(),
    {
        self.entries.len()
    }

    /// The name and value of the `i`-th header.
    pub fn entry(&self, i: usize) -> (r: (&str, &str))
        requires
            i < self@.len(),
        ensures
            r.0@ == self@[i as int].0,
            r.1@ == self@[i as int].1,
    {
        (self.entries[i].0.as_str(), self.entries[i].1.as_str())
    }

    /// Position of the header named `name`, or -1.
    fn find(&self, name: &str) -> (r: Option<usize>)
        ensures
            r.is_none() <==> name_index(self@, name@) < 0,
            r.is_some() ==> r.unwrap() == name_index(self@, name@),
    {
        proof {
            lemma_name_index(self@, name@);
        }
        let mut i: usize = self.entries.len();
        assert(self@.take(i as int) =~= self@);
        while i > 0
            invariant
                i <= self@.len(),
                self.entries@.len() == self@.len(),
                name_index(self@, name@) == name_index(self@.take(i as int), name@),
            decreases i,
        {
            assert(self@.take(i as int).drop_last() =~= self@.take(i - 1));
            assert(self@[i - 1] == pair_view(self.entries@[i - 1]));
            if text_eq(self.entries[i - 1].0.as_str(), name) {
                return Some(i - 1);
            }
            i = i - 1;
        }
        None
    }

    /// The value of the header named `name`, if set.
    pub fn get(&self, name: &str) -> (r: Option<&str>)
        ensures
            r.is_none() <==> name_index(self@, name@) < 0,
            r.is_some() ==> r.unwrap()@ == self@[name_index(self@, name@)].1,
    {
        proof {
            lemma_name_index(self@, name@);
        }
        match self.find(name) {
            None => None,
            Some(i) => Some(self.entries[i].1.as_str()),
        }
    }

    /// Sets the header `name` (already normalised) to `value`, replacing a
    /// header of the same name.
    pub fn insert(&mut self, name: String, value: String)
        requires
            old(self).wf(),
        ensures
            final(self).wf(),
            final(self)@ == header_insert(old(self)@, name@, value@),
    {
        proof {
            lemma_name_index(self@, name@);
            lemma_insert_unique(self@, name@, value@);
        }
        let ghost nv = name@;
        let ghost vv = value@;
        match self.find(name.as_str()) {
            Some(i) => {
                self.entries.set(i, (name, value));
            },
            None => {
                self.entries.push((name, value));
            },
        }
        assert(self@ =~= header_insert(old(self)@, nv, vv));
    }
}

impl HeaderList {
    /// Removes the header named `name` (already normalised), returning its value.
    pub fn remove(&mut self, name: &str) -> (r: Option<String>)
        requires
            old(self).wf(),
        ensures
            final(self).wf(),
            final(self)@ == header_remove(old(self)@, name@),
            r.is_none() <==> name_index(old(self)@, name@) < 0,
            r.is_some() ==> r.unwrap()@ == old(self)@[name_index(old(self)@, name@)].1,
    {
        proof {
            lemma_name_index(self@, name@);
        }
        match self.find(name) {
            None => None,
            Some(i) => {
                let (_, value) = self.entries.remove(i);
                assert(self@ =~= header_remove(old(self)@, name@));
                Some(value)
            },
        }
    }
}

/// The headers of a `headers` node: each string key that is a valid header
/// name with a string value that is a valid header value; other pairs are
/// skipped, and a node that is not a mapping gives none.
pub fn parse_headers(node: &ConfigNode) -> (r: HeaderList)
    ensures
        r.wf(),
        r@ == headers_model(*node),
{
    let mut list = HeaderList::new();
    match node {
        ConfigNode::Mapping(entries) => {
            let mut i: usize = 0;
            while i < entries.len()
                invariant
                    i <= entries@.len(),
                    list.wf(),
                    list@ == headers_from(entries@, i as int),
                decreases entries@.len() - i,
            {
                match (&entries[i].0, &entries[i].1) {
                    (ConfigNode::Str(k), ConfigNode::Str(v)) => {
                        match normalize_header_name(k.as_str()) {
                            Some(n) => {
                                if header_value_accepted(v.as_str()) {
                                    proof {
                                        lemma_name_index(list@, n@);
                                    }
                                    list.insert(n, v.clone());
                                }
                            },
                            None => {},
                        }
                    },
                    _ => {},
                }
                i = i + 1;
            }
        },
        _ => {},
    }
    list
}

} // verus!
