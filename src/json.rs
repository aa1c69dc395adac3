//! JSON documents, held as serde_jsonrc values, and what the library knows of
//! them: a mathematical tree that each value stands for.
use vstd::prelude::*;

verus! {

#[verifier::external_type_specification]
#[verifier::external_body]
pub struct ExValue(serde_jsonrc::Value);

#[verifier::external_type_specification]
#[verifier::external_body]
pub struct ExError(serde_jsonrc::Error);

/// A JSON document as a mathematical value. A non-negative integer is held
/// as its value; any other number as the characters it is printed with.
pub enum JsonTree {
    Null,
    Bool(bool),
    UInt(nat),
    OtherNumber(Seq<char>),
    Str(Seq<char>),
    Array(Seq<JsonTree>),
    Object(Map<Seq<char>, JsonTree>),
}

/// The tree that a serde_jsonrc value holds.
pub uninterp spec fn tree_of(v: serde_jsonrc::Value) -> JsonTree;

/// The document that serde_jsonrc reads from a text, where it reads one.
pub uninterp spec fn parsed(text: Seq<char>) -> Option<JsonTree>;

/// The pretty-printed text that serde_jsonrc writes for a document.
pub uninterp spec fn pretty_text(t: JsonTree) -> Seq<char>;

/// The member `key` of an object; `None` for a missing key or a non-object.
pub open spec fn member(t: JsonTree, key: Seq<char>) -> Option<JsonTree> {
    match t {
        JsonTree::Object(m) => if m.contains_key(key) {
            Some(m[key])
        } else {
            None
        },
        _ => None,
    }
}

/// The object whose members are the given pairs.
pub open spec fn object_of(entries: Seq<(String, serde_jsonrc::Value)>) -> Map<Seq<char>, JsonTree>
    decreases entries.len(),
{
    if entries.len() == 0 {
        Map::empty()
    } else {
        let last = entries.last();
        object_of(entries.drop_last()).insert(last.0@, tree_of(last.1))
    }
}

/// No key occurs twice among the pairs.
pub open spec fn keys_distinct(entries: Seq<(String, serde_jsonrc::Value)>) -> bool {
    forall|i: int, j: int|
        0 <= i < j < entries.len() ==> #[trigger] entries[i].0@ != #[trigger] entries[j].0@
}

/// Relies on serde_jsonrc::from_str read as a `Value`: a text either holds
/// one document, which it returns, or fails.
#[verifier::external_body]
pub(crate) fn parse_document(text: &str) -> (r: Result<serde_jsonrc::Value, serde_jsonrc::Error>)
    ensures
        r is Ok <==> parsed(text@) is Some,
        r is Ok ==> tree_of(r->Ok_0) == parsed(text@)->Some_0,
{
    serde_jsonrc::from_str::<serde_jsonrc::Value>(text)
}

/// Relies on serde_jsonrc::to_string_pretty on a `Value`: the text depends on
/// the document alone, and it never fails, since a `Value`'s keys are strings
/// and the text is written into memory.
#[verifier::external_body]
pub(crate) fn render_pretty(v: &serde_jsonrc::Value) -> (r: Result<String, serde_jsonrc::Error>)
    ensures
        r is Ok,
        r->Ok_0@ == pretty_text(tree_of(*v)),
{
    serde_jsonrc::to_string_pretty(v)
}

/// Relies on serde_jsonrc::Value::get with a string key: the member of an
/// object under that key, `None` for a missing key or a non-object.
#[verifier::external_body]
pub(crate) fn get_member(v: &serde_jsonrc::Value, key: &str) -> (r: Option<serde_jsonrc::Value>)
    ensures
        r is Some <==> member(tree_of(*v), key@) is Some,
        r is Some ==> tree_of(r->Some_0) == member(tree_of(*v), key@)->Some_0,
{
    v.get(key).cloned()
}

/// Relies on serde_jsonrc::Value::as_str: the text of a string value.
#[verifier::external_body]
pub(crate) fn as_text(v: &serde_jsonrc::Value) -> (r: Option<String>)
    ensures
        match tree_of(*v) {
            JsonTree::Str(s) => r is Some && r->Some_0@ == s,
            _ => r is None,
        },
{
    v.as_str().map(str::to_owned)
}

/// Relies on serde_jsonrc::Value::as_u64: the value of a non-negative integer.
#[verifier::external_body]
pub(crate) fn as_unsigned(v: &serde_jsonrc::Value) -> (r: Option<u64>)
    ensures
        match tree_of(*v) {
            JsonTree::UInt(n) => r is Some && r->Some_0 == n,
            _ => r is None,
        },
{
    v.as_u64()
}

/// Relies on `From<String> for serde_jsonrc::Value`: a string value.
#[verifier::external_body]
pub(crate) fn text_value(s: String) -> (r: serde_jsonrc::Value)
    ensures
        tree_of(r) == JsonTree::Str(s@),
{
    serde_jsonrc::Value::from(s)
}

/// Relies on `From<u16> for serde_jsonrc::Value`: a non-negative integer.
#[verifier::external_body]
pub(crate) fn unsigned_value(n: u16) -> (r: serde_jsonrc::Value)
    ensures
        tree_of(r) == JsonTree::UInt(n as nat),
{
    serde_jsonrc::Value::from(n)
}

/// Relies on collecting pairs into a serde_jsonrc::Map, wrapped as an object
/// value: each pair becomes a member.
#[verifier::external_body]
pub(crate) fn object_value(entries: Vec<(String, serde_jsonrc::Value)>) -> (r: serde_jsonrc::Value)
    requires
        keys_distinct(entries@),
    ensures
        tree_of(r) == JsonTree::Object(object_of(entries@)),
{
    serde_jsonrc::Value::Object(entries.into_iter().collect())
}

} // verus!
