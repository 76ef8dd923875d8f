//! Configuration values and their mathematical model.

use vstd::prelude::*;

verus! {

/// One value of a configuration document.
///
/// A float and a timestamp are held as the text that the format backend
/// prints for them: the shortest decimal that reads back as the same float,
/// and the timestamp in the backend's own stable notation.
#[derive(Debug, PartialEq)]
pub enum ConfigValue {
    /// A string.
    String(String),
    /// An integer.
    Integer(i64),
    /// A float, as its decimal text.
    Float(String),
    /// A boolean.
    Boolean(bool),
    /// A timestamp, as its text.
    Datetime(String),
    /// An array: its items in their order.
    Array(Vec<ConfigValue>),
    /// A table: its entries, key and value, in their order.
    Table(Vec<(String, ConfigValue)>),
}

/// What a [`ConfigValue`] stands for.
pub enum ValueView {
    String(Seq<char>),
    Integer(int),
    Float(Seq<char>),
    Boolean(bool),
    Datetime(Seq<char>),
    Array(Seq<ValueView>),
    Table(Seq<(Seq<char>, ValueView)>),
}

impl View for ConfigValue {
    type V = ValueView;

    /// The value with every string as its text, every integer as a number
    /// and every list as a sequence. The parts of an array and of a table
    /// are asked for within the bounds only, which is what shows that each
    /// of them is smaller than the whole.
    open spec fn view(&self) -> ValueView
        decreases self,
    {
        match self {
            ConfigValue::String(s) => ValueView::String(s@),
            ConfigValue::Integer(n) => ValueView::Integer(*n as int),
            ConfigValue::Float(t) => ValueView::Float(t@),
            ConfigValue::Boolean(b) => ValueView::Boolean(*b),
            ConfigValue::Datetime(t) => ValueView::Datetime(t@),
            ConfigValue::Array(items) => ValueView::Array(
                Seq::new(
                    items@.len(),
                    |i: int|
                        if 0 <= i < items@.len() {
                            items@[i].view()
                        } else {
                            ValueView::Boolean(false)
                        },
                ),
            ),
            ConfigValue::Table(entries) => ValueView::Table(
                Seq::new(
                    entries@.len(),
                    |i: int|
                        (
                            entries@[i].0@,
                            if 0 <= i < entries@.len() {
                                entries@[i].1.view()
                            } else {
                                ValueView::Boolean(false)
                            },
                        ),
                ),
            ),
        }
    }
}

/// The model of an ordered list of keyed values.
pub open spec fn entries_view(entries: Seq<(String, ConfigValue)>) -> Seq<(Seq<char>, ValueView)> {
    Seq::new(entries.len(), |i: int| (entries[i].0@, entries[i].1@))
}

/// The model of a list of values.
pub open spec fn values_view(values: Seq<ConfigValue>) -> Seq<ValueView> {
    Seq::new(values.len(), |i: int| values[i]@)
}

/// An array's model is the list of its items' models, and a table's model
/// the list of its entries' models.
pub proof fn view_of_container(v: ConfigValue)
    ensures
        v matches ConfigValue::Array(items) ==> v@ == ValueView::Array(values_view(items@)),
        v matches ConfigValue::Table(entries) ==> v@ == ValueView::Table(entries_view(entries@)),
{
    match v {
        ConfigValue::Array(items) => {
            assert(v@->Array_0 =~= values_view(items@));
        },
        ConfigValue::Table(entries) => {
            assert(v@->Table_0 =~= entries_view(entries@));
        },
        _ => {},
    }
}

impl ValueView {
    /// Whether the value is a string, an integer, a float, a boolean or a
    /// timestamp: one of the kinds that are written directly.
    pub open spec fn is_primitive(self) -> bool {
        !(self is Array) && !(self is Table)
    }

    /// Whether the value can stand under a key of a configuration: a
    /// primitive, or an array of primitives.
    pub open spec fn is_supported(self) -> bool {
        match self {
            ValueView::Array(items) => forall|i: int|
                0 <= i < items.len() ==> (#[trigger] items[i]).is_primitive(),
            ValueView::Table(_) => false,
            _ => true,
        }
    }
}

} // verus!
