//! Documents in JSON, as the disk attribute tool prints them.
//!
//! Reading the text is left to `serde_json`; what it read is copied into a tree of
//! plain values, and every look into a document is made on that tree.

use vstd::prelude::*;

verus! {

/// The document type of `serde_json`, of which nothing is known here.
#[verifier::external_type_specification]
#[verifier::external_body]
pub struct ExValue(serde_json::Value);

/// A JSON document.
#[derive(Debug, PartialEq)]
pub enum Json {
    Null,
    Bool(bool),
    /// A number: as a whole number where it is one that fits 64 bits with a sign, and
    /// as the bits of the double-precision number nearest to it.
    Number { whole: Option<i64>, double: Option<u64> },
    Text(String),
    Array(Vec<Json>),
    /// An object: its members, each under its name.
    Object(Vec<(String, Json)>),
}

/// The tree that holds what a document of `serde_json` holds.
pub uninterp spec fn json_tree(value: serde_json::Value) -> Json;

/// What `serde_json::from_str` makes of a text: the tree of the document that it
/// reads, or `None` where it reports an error.
pub uninterp spec fn json_read(text: Seq<char>) -> Option<Json>;

/// Calls `serde_json::from_str` for a `serde_json::Value`. The claim: what comes
/// back depends on the text alone; an error becomes `None`.
#[verifier::external_body]
fn value_from_str(text: &str) -> (value: Option<serde_json::Value>)
    ensures
        match value {
            Some(v) => json_read(text@) == Some(json_tree(v)),
            None => json_read(text@) is None,
        },
{
    serde_json::from_str::<serde_json::Value>(text).ok()
}

/// Copies a `serde_json::Value` into a tree, variant by variant; of a number it
/// keeps what `Number::as_i64` and `Number::as_f64` return, of an object its members
/// in the order in which `Map::iter` hands them out. The claim: the tree depends on
/// the document alone.
#[verifier::external_body]
fn tree_from_value(value: &serde_json::Value) -> (tree: Json)
    ensures
        tree == json_tree(*value),
{
    match value {
        serde_json::Value::Null => Json::Null,
        serde_json::Value::Bool(b) => Json::Bool(*b),
        serde_json::Value::Number(n) => Json::Number {
            whole: n.as_i64(),
            double: n.as_f64().map(|d| d.to_bits()),
        },
        serde_json::Value::String(s) => Json::Text(s.clone()),
        serde_json::Value::Array(a) => Json::Array(a.iter().map(tree_from_value).collect()),
        serde_json::Value::Object(o) => Json::Object(
            o.iter().map(|(k, v)| (k.clone(), tree_from_value(v))).collect(),
        ),
    }
}

/// The document that a text writes, and `Null` for a text that writes none.
pub open spec fn document_of(text: Seq<char>) -> Json {
    match json_read(text) {
        Some(tree) => tree,
        None => Json::Null,
    }
}

/// Reads a document from a text. A text that is no JSON reads as `Null`.
pub fn parse_document(text: &str) -> (document: Json)
    ensures
        document == document_of(text@),
{
    match value_from_str(text) {
        Some(value) => tree_from_value(&value),
        None => Json::Null,
    }
}

/// The place of the first member called `name`, or the number of members where
/// there is none.
pub open spec fn member_index(members: Seq<(String, Json)>, name: Seq<char>) -> int
    decreases members.len(),
{
    if members.len() == 0 {
        0
    } else if members[0].0@ == name {
        0
    } else {
        1 + member_index(members.skip(1), name)
    }
}

impl Json {
    /// Whether the document is an object with a member called `name`.
    pub open spec fn has_member(self, name: Seq<char>) -> bool {
        match self {
            Json::Object(members) => member_index(members@, name) < members@.len(),
            _ => false,
        }
    }

    /// The first member called `name` of an object, and `Null` where the document
    /// is no object or has no such member.
    pub open spec fn member(self, name: Seq<char>) -> Json {
        match self {
            Json::Object(members) => {
                let i = member_index(members@, name);
                if 0 <= i < members@.len() {
                    members@[i].1
                } else {
                    Json::Null
                }
            },
            _ => Json::Null,
        }
    }

    /// The items of an array, and none where the document is no array.
    pub open spec fn items(self) -> Seq<Json> {
        match self {
            Json::Array(items) => items@,
            _ => Seq::empty(),
        }
    }

    /// The whole number that the document is, if it is one.
    pub open spec fn whole(self) -> Option<i64> {
        match self {
            Json::Number { whole, double } => whole,
            _ => None,
        }
    }

    /// The bits of the double-precision number that the document is, if it is a number.
    pub open spec fn double(self) -> Option<u64> {
        match self {
            Json::Number { whole, double } => double,
            _ => None,
        }
    }

    /// Whether the document is the text `wanted`.
    pub open spec fn is_text(self, wanted: Seq<char>) -> bool {
        match self {
            Json::Text(text) => text@ == wanted,
            _ => false,
        }
    }

    /// Looks up a member of an object by its name.
    pub fn get(&self, name: &str) -> (found: Option<&Json>)
        ensures
            found is Some <==> self.has_member(name@),
            match found {
                Some(member) => *member == self.member(name@),
                None => self.member(name@) == Json::Null,
            },
    {
        match self {
            Json::Object(members) => {
                let wanted = String::from_str(name);
                let mut i: usize = 0;
                assert(members@.skip(0) == members@);
                while i < members.len()
                    invariant
                        i <= members.len(),
                        wanted@ == name@,
                        *self == Json::Object(*members),
                        member_index(members@, name@) == i + member_index(
                            members@.skip(i as int),
                            name@,
                        ),
                    decreases members.len() - i,
                {
                    assert(members@.skip(i as int)[0] == members@[i as int]);
                    if members[i].0 == wanted {
                        assert(member_index(members@.skip(i as int), name@) == 0);
                        return Some(&members[i].1);
                    }
                    assert(members@.skip(i as int).skip(1) == members@.skip(i + 1));
                    i += 1;
                }
                None
            },
            _ => None,
        }
    }

    /// Looks up a member of a member of an object, by their names.
    pub fn get_nested(&self, outer: &str, inner: &str) -> (found: Option<&Json>)
        ensures
            found is Some <==> self.member(outer@).has_member(inner@),
            match found {
                Some(member) => *member == self.member(outer@).member(inner@),
                None => self.member(outer@).member(inner@) == Json::Null,
            },
    {
        match self.get(outer) {
            Some(member) => member.get(inner),
            None => None,
        }
    }

    /// The items of an array, and none where the document is no array.
    pub fn as_items(&self) -> (items: Option<&Vec<Json>>)
        ensures
            items is Some <==> self is Array,
            match items {
                Some(list) => list@ == self.items(),
                None => self.items().len() == 0,
            },
    {
        match self {
            Json::Array(items) => Some(items),
            _ => None,
        }
    }

    /// The whole number that the document is, if it is one.
    pub fn as_whole(&self) -> (number: Option<i64>)
        ensures
            number == self.whole(),
    {
        match self {
            Json::Number { whole, double } => *whole,
            _ => None,
        }
    }

    /// The bits of the double-precision number that the document is, if it is a number.
    pub fn as_double(&self) -> (bits: Option<u64>)
        ensures
            bits == self.double(),
    {
        match self {
            Json::Number { whole, double } => *double,
            _ => None,
        }
    }

    /// Tells whether the document is the text `wanted`.
    pub fn text_is(&self, wanted: &String) -> (same: bool)
        ensures
            same == self.is_text(wanted@),
    {
        match self {
            Json::Text(text) => *text == *wanted,
            _ => false,
        }
    }
}

} // verus!
