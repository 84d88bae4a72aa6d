//! The TOML documents that a configuration is read from.
//!
//! Parsing is the `toml` crate's work, and a parsed document stays in that
//! crate's own types. [`Node`] models what such a value holds. The items of
//! this module are not proved: each states how one function of the `toml`
//! crate relates to that model, and the rest of the library is verified
//! against these statements.

use vstd::prelude::*;

verus! {

/// What a TOML value holds, as far as a configuration reads it.
pub enum Node {
    /// A string.
    Text(Seq<char>),
    /// An integer.
    Integer(int),
    /// A table, from its keys to what stands under them.
    Table(Map<Seq<char>, Node>),
    /// A value of any other kind: a float, a boolean, a date or an array.
    Other,
}

/// `toml::Value`, a parsed TOML value.
#[verifier::external_type_specification]
#[verifier::external_body]
pub struct ExValue(toml::Value);

/// `toml::map::Map`, of which `toml::Table` is the instance from `String`
/// to `toml::Value`.
#[verifier::external_type_specification]
#[verifier::external_body]
#[verifier::reject_recursive_types(K)]
#[verifier::reject_recursive_types(V)]
pub struct ExMap<K, V>(toml::map::Map<K, V>);

/// `toml::de::Error`, the parser's report of what is wrong with a text.
#[verifier::external_type_specification]
#[verifier::external_body]
pub struct ExError(toml::de::Error);

/// What `value` holds.
pub uninterp spec fn value_node(value: toml::Value) -> Node;

/// What `table` holds under each of its keys.
pub uninterp spec fn table_nodes(table: toml::Table) -> Map<Seq<char>, Node>;

/// What the table holds that `text` denotes as a TOML document; `None`
/// where `text` is no TOML document.
pub uninterp spec fn toml_document(text: Seq<char>) -> Option<Map<Seq<char>, Node>>;

/// Calls `toml::from_str` at the type `toml::Table`.
///
/// Claimed: the call returns, it depends on `text` alone, and it gives a
/// table exactly where `text` is a TOML document.
#[verifier::external_body]
pub(crate) fn parse_table(text: &str) -> (parsed: Result<toml::Table, toml::de::Error>)
    ensures
        match parsed {
            Ok(table) => toml_document(text@) == Some(table_nodes(table)),
            Err(_) => toml_document(text@) is None,
        },
{
    toml::from_str::<toml::Table>(text)
}

/// Calls `toml::map::Map::get`.
///
/// Claimed: the value under `key` is handed out where the table has that
/// key, and nothing where it has not.
#[verifier::external_body]
pub(crate) fn table_get<'a>(table: &'a toml::Table, key: &str) -> (found: Option<&'a toml::Value>)
    ensures
        match found {
            Some(value) => table_nodes(*table).contains_key(key@) && table_nodes(*table)[key@]
                == value_node(*value),
            None => !table_nodes(*table).contains_key(key@),
        },
{
    table.get(key)
}

/// Calls `toml::map::Map::iter` and collects what it yields.
///
/// Claimed: every key of the table is yielded once, each with the value
/// that stands under it, and nothing else is.
#[verifier::external_body]
pub(crate) fn table_entries<'a>(table: &'a toml::Table) -> (entries: Vec<
    (&'a String, &'a toml::Value),
>)
    ensures
        forall|key: Seq<char>|
            table_nodes(*table).contains_key(key) ==> exists|i: int|
                0 <= i < entries@.len() && (#[trigger] entries@[i]).0@ == key,
        forall|i: int|
            0 <= i < entries@.len() ==> table_nodes(*table).contains_key(
                (#[trigger] entries@[i]).0@,
            ) && table_nodes(*table)[entries@[i].0@] == value_node(*entries@[i].1),
        forall|i: int, j: int|
            0 <= i < j < entries@.len() ==> (#[trigger] entries@[i]).0@ != (
            #[trigger] entries@[j]).0@,
{
    table.iter().collect()
}

/// `toml::Value::as_str`: the string where the value is one.
pub assume_specification[ toml::Value::as_str ](value: &toml::Value) -> (text: Option<&str>)
    ensures
        match text {
            Some(t) => value_node(*value) == Node::Text(t@),
            None => !(value_node(*value) is Text),
        },
;

/// `toml::Value::as_integer`: the integer where the value is one.
pub assume_specification[ toml::Value::as_integer ](value: &toml::Value) -> (number: Option<i64>)
    ensures
        match number {
            Some(n) => value_node(*value) == Node::Integer(n as int),
            None => !(value_node(*value) is Integer),
        },
;

/// `toml::Value::as_table`: the table where the value is one.
pub assume_specification[ toml::Value::as_table ](value: &toml::Value) -> (table: Option<
    &toml::Table,
>)
    ensures
        match table {
            Some(t) => value_node(*value) == Node::Table(table_nodes(*t)),
            None => !(value_node(*value) is Table),
        },
;

} // verus!
