//! The TOML document behind a configuration file, read and built through the
//! `toml` crate. Everything in this file that is marked `external_body` is
//! trusted: its contract describes the `toml` crate and is not proved here.

use vstd::prelude::*;

verus! {

/// What a TOML value holds, as far as a configuration reads it.
pub enum Node {
    Text(Seq<char>),
    Flag(bool),
    Integer(int),
    Table(Map<Seq<char>, Node>),
    /// A float, a date-time or an array.
    Other,
}

/// `toml::map::Map`, the table of a document or of a group. With the
/// crate's default features it is a map sorted by key.
#[verifier::external_type_specification]
#[verifier::external_body]
#[verifier::reject_recursive_types(K)]
#[verifier::reject_recursive_types(V)]
pub struct ExTomlMap<K, V>(toml::map::Map<K, V>);

/// `toml::Value`, one value of a document.
#[verifier::external_type_specification]
#[verifier::external_body]
pub struct ExTomlValue(toml::Value);

/// `toml::de::Error`, why a text is no document.
#[verifier::external_type_specification]
#[verifier::external_body]
pub struct ExTomlParseError(toml::de::Error);

/// `toml::ser::Error`, why a document could not be written.
#[verifier::external_type_specification]
#[verifier::external_body]
pub struct ExTomlRenderError(toml::ser::Error);

/// The table without entries.
pub open spec fn no_entries() -> Map<Seq<char>, Node> {
    Map::empty()
}

/// The entries of a table, by key.
pub uninterp spec fn table_nodes(table: toml::map::Map<String, toml::Value>) -> Map<Seq<char>, Node>;

/// What a value holds.
pub uninterp spec fn value_node(value: toml::Value) -> Node;

/// The top-level table of the document that `toml` reads from a text, or
/// `None` where the text is not a TOML document.
pub uninterp spec fn parsed_document(text: Seq<char>) -> Option<Map<Seq<char>, Node>>;

/// `toml::from_str` at `toml::Table`: the result is the document that the
/// text denotes, and an error exactly where it denotes none.
#[verifier::external_body]
pub(crate) fn parse_table(text: &str) -> (r: Result<toml::map::Map<String, toml::Value>, toml::de::Error>)
    ensures
        parsed_document(text@) == (match r {
            Ok(table) => Some(table_nodes(table)),
            Err(_) => None,
        }),
{
    toml::from_str::<toml::Table>(text)
}

/// The `Display` text of a `toml::de::Error`: the parser's account of
/// what went wrong and where.
#[verifier::external_body]
pub(crate) fn parse_error_message(error: &toml::de::Error) -> (r: String)
{
    error.to_string()
}

/// `toml::map::Map::get`: the value stored under `key`, if there is one.
#[verifier::external_body]
pub(crate) fn table_get<'a>(table: &'a toml::map::Map<String, toml::Value>, key: &str) -> (r: Option<&'a toml::Value>)
    ensures
        match r {
            Some(value) => table_nodes(*table).contains_key(key@) && table_nodes(*table)[key@] == value_node(*value),
            None => !table_nodes(*table).contains_key(key@),
        },
{
    table.get(key)
}

/// `toml::Value::as_table`: the table inside a value, if it is a table.
#[verifier::external_body]
pub(crate) fn value_as_table<'a>(value: &'a toml::Value) -> (r: Option<&'a toml::map::Map<String, toml::Value>>)
    ensures
        match r {
            Some(table) => value_node(*value) == Node::Table(table_nodes(*table)),
            None => !(value_node(*value) is Table),
        },
{
    value.as_table()
}

/// `toml::Value::as_str`: the text inside a value, if it is a string.
#[verifier::external_body]
pub(crate) fn value_as_str<'a>(value: &'a toml::Value) -> (r: Option<&'a str>)
    ensures
        match r {
            Some(text) => value_node(*value) == Node::Text(text@),
            None => !(value_node(*value) is Text),
        },
{
    value.as_str()
}

/// `toml::Value::as_bool`: the boolean inside a value, if it is one.
#[verifier::external_body]
pub(crate) fn value_as_bool(value: &toml::Value) -> (r: Option<bool>)
    ensures
        match r {
            Some(flag) => value_node(*value) == Node::Flag(flag),
            None => !(value_node(*value) is Flag),
        },
{
    value.as_bool()
}

/// `toml::Value::as_integer`: the integer inside a value, if it is one.
#[verifier::external_body]
pub(crate) fn value_as_integer(value: &toml::Value) -> (r: Option<i64>)
    ensures
        match r {
            Some(number) => value_node(*value) == Node::Integer(number as int),
            None => !(value_node(*value) is Integer),
        },
{
    value.as_integer()
}

/// `toml::map::Map::new`: a table without entries.
#[verifier::external_body]
pub(crate) fn table_new() -> (r: toml::map::Map<String, toml::Value>)
    ensures
        table_nodes(r) == no_entries(),
{
    toml::map::Map::new()
}

/// `toml::map::Map::insert`: binds `key` to `value`, in place of what the
/// key was bound to before.
#[verifier::external_body]
pub(crate) fn table_insert(table: &mut toml::map::Map<String, toml::Value>, key: String, value: toml::Value)
    ensures
        table_nodes(*final(table)) == table_nodes(*old(table)).insert(key@, value_node(value)),
{
    table.insert(key, value);
}

/// The variant `toml::Value::String`.
#[verifier::external_body]
pub(crate) fn text_value(text: String) -> (r: toml::Value)
    ensures
        value_node(r) == Node::Text(text@),
{
    toml::Value::String(text)
}

/// The variant `toml::Value::Boolean`.
#[verifier::external_body]
pub(crate) fn flag_value(flag: bool) -> (r: toml::Value)
    ensures
        value_node(r) == Node::Flag(flag),
{
    toml::Value::Boolean(flag)
}

/// The variant `toml::Value::Integer`.
#[verifier::external_body]
pub(crate) fn integer_value(number: i64) -> (r: toml::Value)
    ensures
        value_node(r) == Node::Integer(number as int),
{
    toml::Value::Integer(number)
}

/// The variant `toml::Value::Table`.
#[verifier::external_body]
pub(crate) fn table_value(table: toml::map::Map<String, toml::Value>) -> (r: toml::Value)
    ensures
        value_node(r) == Node::Table(table_nodes(table)),
{
    toml::Value::Table(table)
}

/// Whether every entry is a string, a boolean or an integer.
pub open spec fn scalars_only(entries: Map<Seq<char>, Node>) -> bool {
    forall|key: Seq<char>| #[trigger]
        entries.contains_key(key) ==> entries[key] is Text || entries[key] is Flag
            || entries[key] is Integer
}

/// Whether every entry is a table of strings, booleans and integers.
pub open spec fn groups_of_scalars(doc: Map<Seq<char>, Node>) -> bool {
    forall|name: Seq<char>| #[trigger]
        doc.contains_key(name) ==> doc[name] is Table && scalars_only(doc[name]->Table_0)
}

/// The text that `toml` writes for a document made of groups of scalars, or
/// `None` where it writes none.
pub uninterp spec fn rendered_document(doc: Map<Seq<char>, Node>) -> Option<Seq<char>>;

/// `toml::to_string_pretty` on a table: the text is determined by the
/// table's entries, which a sorted map keeps in the order of their keys.
#[verifier::external_body]
pub(crate) fn render_table(table: &toml::map::Map<String, toml::Value>) -> (r: Result<String, toml::ser::Error>)
    requires
        groups_of_scalars(table_nodes(*table)),
    ensures
        rendered_document(table_nodes(*table)) == (match r {
            Ok(text) => Some(text@),
            Err(_) => None,
        }),
{
    toml::to_string_pretty(table)
}

/// The `Display` text of a `toml::ser::Error`.
#[verifier::external_body]
pub(crate) fn render_error_message(error: &toml::ser::Error) -> (r: String)
{
    error.to_string()
}

} // verus!
