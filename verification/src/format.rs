//! Configuration formats, and the TOML format among them.

use crate::error::{Error, ErrorView};
use crate::table::{args_view, document_args, parse_arg, prepend, table_args};
use crate::text::texts;
use crate::value::{entries_view, values_view, view_of_container, ConfigValue, ValueView};
use vstd::prelude::*;

verus! {

/// A configuration format: it turns the bytes of a configuration into
/// arguments.
pub trait Format {
    /// What the format makes of `bytes`: the arguments in their order, or the
    /// reason why there are none.
    spec fn arguments(bytes: Seq<u8>) -> Result<Seq<Seq<char>>, ErrorView>;

    /// Parses the configuration in `buf` and returns its arguments.
    fn from_slice(buf: &[u8]) -> (r: Result<Vec<String>, Error>)
        ensures
            args_view(r) == Self::arguments(buf@),
    ;
}

/// A format reads nothing but the bytes it is given: two translations of the
/// same bytes give the same outcome, the same arguments in the same order or
/// the same error.
pub proof fn same_bytes_same_arguments<T: Format>(
    first: Seq<u8>,
    second: Seq<u8>,
    one: Result<Vec<String>, Error>,
    other: Result<Vec<String>, Error>,
)
    requires
        first =~= second,
        args_view(one) == T::arguments(first),
        args_view(other) == T::arguments(second),
    ensures
        args_view(one) == args_view(other),
{
}

/// A TOML value as the `toml` crate holds it. It is read one level at a time,
/// through [`peel`], and stands for what [`held`] says.
#[verifier::external_type_specification]
#[verifier::external_body]
pub struct ExTomlValue(toml::Value);

/// What `toml::from_slice` makes of `bytes`: the document, or the parser's
/// complaint. Parsing reads nothing but the bytes, so equal bytes give equal
/// results.
pub uninterp spec fn toml_document(bytes: Seq<u8>) -> Result<ValueView, Seq<char>>;

/// What a TOML value holds: a primitive, the items of an array in their
/// order, or the entries of a table in the order in which the table hands
/// them out. A float and a timestamp are held as the text that their
/// `Display` prints.
pub uninterp spec fn held(v: toml::Value) -> ValueView;

/// One level of a TOML value: a primitive is taken out, an array and a table
/// are opened, and their parts are TOML values still.
enum Layer {
    String(String),
    Integer(i64),
    Float(String),
    Boolean(bool),
    Datetime(String),
    Array(Vec<toml::Value>),
    Table(Vec<(String, toml::Value)>),
}

impl Layer {
    /// What the level stands for, each part by what it holds.
    spec fn holds(self) -> ValueView {
        match self {
            Layer::String(s) => ValueView::String(s@),
            Layer::Integer(n) => ValueView::Integer(n as int),
            Layer::Float(t) => ValueView::Float(t@),
            Layer::Boolean(b) => ValueView::Boolean(b),
            Layer::Datetime(t) => ValueView::Datetime(t@),
            Layer::Array(items) => ValueView::Array(
                Seq::new(items@.len(), |i: int| held(items@[i])),
            ),
            Layer::Table(entries) => ValueView::Table(
                Seq::new(entries@.len(), |i: int| (entries@[i].0@, held(entries@[i].1))),
            ),
        }
    }
}

/// The model of a parsed document or the parser's complaint.
spec fn parsed_view(r: Result<toml::Value, String>) -> Result<ValueView, Seq<char>> {
    match r {
        Ok(root) => Ok(held(root)),
        Err(complaint) => Err(complaint@),
    }
}

/// Calls `toml::from_slice` for a `toml::Value`; where it fails, the error is
/// handed back as the text that its `Display` prints. The contract claims
/// only that what comes back is the one result that belongs to these bytes:
/// it says nothing of which bytes are a document, nor of what they hold.
#[verifier::external_body]
fn read_document(buf: &[u8]) -> (r: Result<toml::Value, String>)
    ensures
        parsed_view(r) == toml_document(buf@),
{
    match toml::from_slice::<toml::Value>(buf) {
        Ok(root) => Ok(root),
        Err(e) => Err(e.to_string()),
    }
}

/// Takes a `toml::Value` apart by its variant, one level deep. A string, an
/// integer, a boolean and the items of an array are moved as they are. A
/// float and a `toml::value::Datetime` become the text that their `Display`
/// prints, and the `toml::map::Map` of a table becomes the list of its
/// entries in the order in which it is walked. The contract claims that the
/// level handed back holds what the value held: this is what [`held`] means.
#[verifier::external_body]
fn peel(v: toml::Value) -> (r: Layer)
    ensures
        r.holds() == held(v),
{
    match v {
        toml::Value::String(s) => Layer::String(s),
        toml::Value::Integer(n) => Layer::Integer(n),
        toml::Value::Float(x) => Layer::Float(x.to_string()),
        toml::Value::Boolean(b) => Layer::Boolean(b),
        toml::Value::Datetime(t) => Layer::Datetime(t.to_string()),
        toml::Value::Array(items) => Layer::Array(items),
        toml::Value::Table(t) => Layer::Table(t.into_iter().collect()),
    }
}

impl ConfigValue {
    /// Moves a TOML value into a [`ConfigValue`] that stands for the same,
    /// level by level.
    pub fn from_toml(v: toml::Value) -> (r: ConfigValue)
        ensures
            r@ == held(v),
        decreases held(v),
    {
        match peel(v) {
            Layer::String(s) => ConfigValue::String(s),
            Layer::Integer(n) => ConfigValue::Integer(n),
            Layer::Float(t) => ConfigValue::Float(t),
            Layer::Boolean(b) => ConfigValue::Boolean(b),
            Layer::Datetime(t) => ConfigValue::Datetime(t),
            Layer::Array(items) => {
                let ghost parts = held(v)->Array_0;
                let mut moved: Vec<ConfigValue> = Vec::new();
                for item in iter: items
                    invariant
                        held(v) == ValueView::Array(parts),
                        parts.len() == iter.seq().len(),
                        forall|i: int| 0 <= i < parts.len() ==> parts[i] == held(iter.seq()[i]),
                        moved@.len() == iter.index(),
                        forall|i: int|
                            0 <= i < moved@.len() ==> (#[trigger] moved@[i])@ == parts[i],
                {
                    assert(decreases_to!(held(v)->Array_0 => held(v)->Array_0[moved@.len() as int]));
                    moved.push(ConfigValue::from_toml(item));
                }
                let r = ConfigValue::Array(moved);
                proof {
                    view_of_container(r);
                    assert(values_view(moved@) =~= parts);
                }
                r
            },
            Layer::Table(entries) => {
                let ghost parts = held(v)->Table_0;
                let mut moved: Vec<(String, ConfigValue)> = Vec::new();
                for entry in iter: entries
                    invariant
                        held(v) == ValueView::Table(parts),
                        parts.len() == iter.seq().len(),
                        forall|i: int|
                            0 <= i < parts.len() ==> parts[i] == (
                                iter.seq()[i].0@,
                                held(iter.seq()[i].1),
                            ),
                        moved@.len() == iter.index(),
                        forall|i: int|
                            0 <= i < moved@.len() ==> (#[trigger] moved@[i]).0@ == parts[i].0
                                && moved@[i].1@ == parts[i].1,
                {
                    let (key, value) = entry;
                    assert(decreases_to!(held(v)->Table_0[moved@.len() as int] => held(
                        v,
                    )->Table_0[moved@.len() as int].1));
                    moved.push((key, ConfigValue::from_toml(value)));
                }
                let r = ConfigValue::Table(moved);
                proof {
                    view_of_container(r);
                    assert(entries_view(moved@) =~= parts);
                }
                r
            },
        }
    }
}

/// The arguments that the TOML backend and the table translator make of
/// `bytes`.
pub open spec fn toml_args(bytes: Seq<u8>) -> Result<Seq<Seq<char>>, ErrorView> {
    match toml_document(bytes) {
        Ok(doc) => document_args(doc),
        Err(complaint) => Err(ErrorView::Parse(complaint)),
    }
}

/// The [TOML](https://toml.io/) configuration format.
///
/// The configuration has to be a table whose values are strings, integers,
/// floats, booleans, timestamps, or arrays of these. Nested tables are not
/// supported. The arguments come in the order in which the backend hands out
/// the entries of the table, which is the order of their keys.
#[derive(Clone, Copy, Debug)]
pub struct Config;

impl Config {
    /// Writes the arguments of `entries`, entry after entry. The first entry
    /// that cannot be written makes the whole fail, with no argument kept.
    pub fn from_iter(entries: &Vec<(String, ConfigValue)>) -> (r: Result<Vec<String>, Error>)
        ensures
            args_view(r) == table_args(entries_view(entries@)),
    {
        let ghost all = entries_view(entries@);
        let mut args: Vec<String> = Vec::new();
        let mut i: usize = 0;
        assert(all.skip(0) =~= all);
        while i < entries.len()
            invariant
                i <= entries@.len(),
                all == entries_view(entries@),
                table_args(all) == prepend(texts(args@), table_args(all.skip(i as int))),
            decreases entries@.len() - i,
        {
            let ghost so_far = texts(args@);
            assert(all.skip(i as int).drop_first() =~= all.skip(i + 1));
            match parse_arg(entries[i].0.as_str(), &entries[i].1) {
                Ok(mut more) => {
                    let ghost head = texts(more@);
                    let ghost rest = table_args(all.skip(i + 1))->Ok_0;
                    args.append(&mut more);
                    assert(texts(args@) =~= so_far + head);
                    assert(so_far + (head + rest) =~= (so_far + head) + rest);
                },
                Err(e) => {
                    return Err(e);
                },
            }
            i = i + 1;
        }
        Ok(args)
    }

    /// Writes the arguments of a document. Its root has to be a table: any
    /// other root is [`Error::InvalidTopLevel`].
    pub fn from_document(doc: &ConfigValue) -> (r: Result<Vec<String>, Error>)
        ensures
            args_view(r) == document_args(doc@),
    {
        proof {
            view_of_container(*doc);
        }
        match doc {
            ConfigValue::Table(entries) => Config::from_iter(entries),
            _ => Err(Error::InvalidTopLevel),
        }
    }
}

impl Format for Config {
    open spec fn arguments(bytes: Seq<u8>) -> Result<Seq<Seq<char>>, ErrorView> {
        toml_args(bytes)
    }

    /// Parses `buf` as TOML and writes the arguments of the document. Bytes
    /// that are no TOML document give [`Error::Parse`] with the parser's
    /// complaint.
    fn from_slice(buf: &[u8]) -> (r: Result<Vec<String>, Error>) {
        match read_document(buf) {
            Ok(root) => {
                let doc = ConfigValue::from_toml(root);
                Config::from_document(&doc)
            },
            Err(complaint) => Err(Error::Parse(complaint)),
        }
    }
}

} // verus!
