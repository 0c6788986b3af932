//! Parsed TOML documents, as far as the manifest reader looks into them.
//!
//! Parsing and lookup are done by the `toml` crate. The contracts in this
//! file describe that crate and are not proved here.

use vstd::prelude::*;

verus! {

/// `toml::map::Map`, the table of a TOML document. Its entries are named by
/// `table_entries`.
#[verifier::external_type_specification]
#[verifier::external_body]
#[verifier::reject_recursive_types(K)]
#[verifier::reject_recursive_types(V)]
pub struct ExTomlMap<K, V>(toml::map::Map<K, V>);

/// `toml::Value`, a value of a TOML document. What it holds is named by
/// `value_shape`.
#[verifier::external_type_specification]
#[verifier::external_body]
pub struct ExTomlValue(toml::Value);

/// `toml::de::Error`, the reason why a text is not a TOML document.
#[verifier::external_type_specification]
#[verifier::external_body]
pub struct ExTomlError(toml::de::Error);

/// What the manifest reader sees of a TOML value.
pub enum TomlShape {
    /// A string, with its characters.
    Text(Seq<char>),
    /// An array, with its elements in order.
    List(Seq<TomlShape>),
    /// A table, with its entries by key.
    Table(Map<Seq<char>, TomlShape>),
    /// An integer, a float, a boolean or a datetime.
    Other,
}

/// The top-level entries of the TOML document that `text` is, by key; `None`
/// when `text` is not a TOML document.
pub uninterp spec fn document_of(text: Seq<char>) -> Option<Map<Seq<char>, TomlShape>>;

/// The entries of a table, by key.
pub uninterp spec fn table_entries(table: toml::Table) -> Map<Seq<char>, TomlShape>;

/// What a value holds.
pub uninterp spec fn value_shape(value: toml::Value) -> TomlShape;

/// What each of the values holds, in order.
pub open spec fn shapes(values: Seq<toml::Value>) -> Seq<TomlShape> {
    Seq::new(values.len(), |i: int| value_shape(values[i]))
}

/// Calls `toml::Table::from_str`, which parses `text` as a TOML document.
/// The contract claims that the table returned holds the entries of that
/// document, and that an error is returned exactly when `text` is not a TOML
/// document.
#[verifier::external_body]
pub(crate) fn parse_table(text: &str) -> (r: Result<toml::Table, toml::de::Error>)
    ensures
        match r {
            Ok(table) => document_of(text@) == Some(table_entries(table)),
            Err(_) => document_of(text@) is None,
        },
{
    text.parse::<toml::Table>()
}

/// Calls `toml::map::Map::get`, which returns the value stored under `key`.
/// The contract claims that a value is returned exactly when the table has
/// the key, and that it is the value stored under it.
#[verifier::external_body]
pub(crate) fn table_get<'a>(table: &'a toml::Table, key: &str) -> (r: Option<&'a toml::Value>)
    ensures
        match r {
            Some(value) => table_entries(*table).contains_key(key@) && table_entries(
                *table,
            )[key@] == value_shape(*value),
            None => !table_entries(*table).contains_key(key@),
        },
{
    table.get(key)
}

/// Calls `toml::Value::get` with a string index, which looks `key` up in a
/// value that is a table. The contract claims that a value is returned
/// exactly when `value` is a table that has the key, and that it is the
/// value stored under it.
#[verifier::external_body]
pub(crate) fn value_get<'a>(value: &'a toml::Value, key: &str) -> (r: Option<&'a toml::Value>)
    ensures
        match r {
            Some(found) => value_shape(*value) matches TomlShape::Table(entries)
                && entries.contains_key(key@) && entries[key@] == value_shape(*found),
            None => value_shape(*value) matches TomlShape::Table(entries)
                ==> !entries.contains_key(key@),
        },
{
    value.get(key)
}

/// Calls `toml::Value::as_str`, which returns the string that `value` holds.
/// The contract claims that a string is returned exactly when `value` is a
/// string, and that it has the same characters.
#[verifier::external_body]
pub(crate) fn value_as_str<'a>(value: &'a toml::Value) -> (r: Option<&'a str>)
    ensures
        match r {
            Some(text) => value_shape(*value) == TomlShape::Text(text@),
            None => !(value_shape(*value) is Text),
        },
{
    value.as_str()
}

/// Calls `toml::Value::as_array`, which returns the array that `value`
/// holds. The contract claims that an array is returned exactly when `value`
/// is an array, and that it has the same elements in the same order.
#[verifier::external_body]
pub(crate) fn value_as_array<'a>(value: &'a toml::Value) -> (r: Option<&'a Vec<toml::Value>>)
    ensures
        match r {
            Some(items) => value_shape(*value) == TomlShape::List(shapes(items@)),
            None => !(value_shape(*value) is List),
        },
{
    value.as_array()
}

} // verus!
