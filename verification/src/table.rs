//! The table translator: keyed values to arguments.
//!
//! A primitive value gives at most one argument, an array of primitives those
//! of its items, and the entries of a table those of each entry, always in
//! the order in which the values stand. Anything nested deeper is an error
//! that names the key, and an error never comes with arguments.

use crate::error::{Error, ErrorView, Shape};
use crate::scalar::{bool_arg, parse_bool_arg, parse_string_arg};
use crate::text::{
    decimal, decimal_value, decimal_value_of_decimal, flag_token, integer_text, key_value_token,
    texts, token_value, token_value_of_key_value_token,
};
use crate::value::{values_view, view_of_container, ConfigValue, ValueView};
use vstd::prelude::*;
use vstd::string::*;

verus! {

/// The model of an outcome that is a list of arguments or an error.
pub open spec fn args_view(r: Result<Vec<String>, Error>) -> Result<Seq<Seq<char>>, ErrorView> {
    match r {
        Ok(args) => Ok(texts(args@)),
        Err(e) => Err(e@),
    }
}

/// The model of an outcome that is at most one argument, or an error.
pub open spec fn arg_view(r: Result<Option<String>, Error>) -> Result<
    Option<Seq<char>>,
    ErrorView,
> {
    match r {
        Ok(Some(t)) => Ok(Some(t@)),
        Ok(None) => Ok(None),
        Err(e) => Err(e@),
    }
}

/// The model of what [`ArrayIterator::next`] returns.
pub open spec fn item_view(r: Option<Result<String, Error>>) -> Option<
    Result<Seq<char>, ErrorView>,
> {
    match r {
        Some(Ok(t)) => Some(Ok(t@)),
        Some(Err(e)) => Some(Err(e@)),
        None => None,
    }
}

/// The argument that a key and a primitive value give, if any; an array or a
/// table gives an error that names the key.
pub open spec fn primitive_arg(key: Seq<char>, v: ValueView) -> Result<
    Option<Seq<char>>,
    ErrorView,
> {
    match v {
        ValueView::String(s) => Ok(Some(key_value_token(key, s))),
        ValueView::Integer(n) => Ok(Some(key_value_token(key, decimal(n)))),
        ValueView::Float(t) => Ok(Some(key_value_token(key, t))),
        ValueView::Boolean(b) => Ok(bool_arg(key, b)),
        ValueView::Datetime(t) => Ok(Some(key_value_token(key, t))),
        ValueView::Array(_) => Err(ErrorView::UnsupportedShape { key, shape: Shape::Array }),
        ValueView::Table(_) => Err(ErrorView::UnsupportedShape { key, shape: Shape::Table }),
    }
}

/// Zero or one argument as a sequence.
pub open spec fn optional(arg: Option<Seq<char>>) -> Seq<Seq<char>> {
    match arg {
        Some(t) => seq![t],
        None => Seq::empty(),
    }
}

/// `head` followed by the arguments of `tail`, or the error of `tail`.
pub open spec fn prepend(head: Seq<Seq<char>>, tail: Result<Seq<Seq<char>>, ErrorView>) -> Result<
    Seq<Seq<char>>,
    ErrorView,
> {
    match tail {
        Ok(rest) => Ok(head + rest),
        Err(e) => Err(e),
    }
}

/// The arguments of an array under one key: those of its items, in the order
/// of the items. The first item that is no primitive makes the whole an error.
pub open spec fn array_args(key: Seq<char>, items: Seq<ValueView>) -> Result<
    Seq<Seq<char>>,
    ErrorView,
>
    decreases items.len(),
{
    if items.len() == 0 {
        Ok(Seq::empty())
    } else {
        match primitive_arg(key, items.first()) {
            Ok(head) => prepend(optional(head), array_args(key, items.drop_first())),
            Err(e) => Err(e),
        }
    }
}

/// The arguments of one entry: a primitive gives at most one, an array those
/// of its items, a table an error.
pub open spec fn entry_args(key: Seq<char>, v: ValueView) -> Result<Seq<Seq<char>>, ErrorView> {
    match v {
        ValueView::Array(items) => array_args(key, items),
        ValueView::Table(_) => Err(ErrorView::UnsupportedShape { key, shape: Shape::Table }),
        _ => match primitive_arg(key, v) {
            Ok(arg) => Ok(optional(arg)),
            Err(e) => Err(e),
        },
    }
}

/// The arguments of a list of entries: those of each entry, in the order of
/// the entries. The first entry that fails makes the whole an error.
pub open spec fn table_args(entries: Seq<(Seq<char>, ValueView)>) -> Result<
    Seq<Seq<char>>,
    ErrorView,
>
    decreases entries.len(),
{
    if entries.len() == 0 {
        Ok(Seq::empty())
    } else {
        match entry_args(entries.first().0, entries.first().1) {
            Ok(head) => prepend(head, table_args(entries.drop_first())),
            Err(e) => Err(e),
        }
    }
}

/// The arguments of a whole document, whose root has to be a table.
pub open spec fn document_args(doc: ValueView) -> Result<Seq<Seq<char>>, ErrorView> {
    match doc {
        ValueView::Table(entries) => table_args(entries),
        _ => Err(ErrorView::InvalidTopLevel),
    }
}

/// What the next call of [`ArrayIterator::next`] gives on the items that are
/// left, and the items that are left after it: the items that give no
/// argument are passed over, and the first one that gives an argument or an
/// error is taken.
pub open spec fn next_arg(key: Seq<char>, items: Seq<ValueView>) -> (
    Option<Result<Seq<char>, ErrorView>>,
    Seq<ValueView>,
)
    decreases items.len(),
{
    if items.len() == 0 {
        (None, items)
    } else {
        match primitive_arg(key, items.first()) {
            Ok(None) => next_arg(key, items.drop_first()),
            Ok(Some(t)) => (Some(Ok(t)), items.drop_first()),
            Err(e) => (Some(Err(e)), items.drop_first()),
        }
    }
}

/// Writes the argument of a key and a primitive value: `--k=v` for a string,
/// an integer in decimal, a float or a timestamp, the bare `--k` for `true`,
/// and nothing for `false`. An array or a table is an error.
pub fn parse_primitive_arg(k: &str, v: &ConfigValue) -> (r: Result<Option<String>, Error>)
    ensures
        arg_view(r) == primitive_arg(k@, v@),
{
    match v {
        ConfigValue::String(s) => Ok(Some(parse_string_arg(k, s.as_str()))),
        ConfigValue::Integer(n) => {
            let text = integer_text(*n);
            Ok(Some(parse_string_arg(k, text.as_str())))
        },
        ConfigValue::Float(t) => Ok(Some(parse_string_arg(k, t.as_str()))),
        ConfigValue::Boolean(b) => Ok(parse_bool_arg(k, *b)),
        ConfigValue::Datetime(t) => Ok(Some(parse_string_arg(k, t.as_str()))),
        ConfigValue::Array(_) => Err(
            Error::UnsupportedShape { key: String::from_str(k), shape: Shape::Array },
        ),
        ConfigValue::Table(_) => Err(
            Error::UnsupportedShape { key: String::from_str(k), shape: Shape::Table },
        ),
    }
}

/// Walks the items of an array and gives the argument of each under one key.
pub struct ArrayIterator<'a> {
    key: &'a str,
    values: &'a Vec<ConfigValue>,
    pos: usize,
}

impl<'a> ArrayIterator<'a> {
    #[verifier::type_invariant]
    spec fn in_bounds(self) -> bool {
        self.pos <= self.values@.len()
    }

    /// The key that every argument is written under.
    pub closed spec fn key(self) -> Seq<char> {
        self.key@
    }

    /// The items that are still to come.
    pub closed spec fn remaining(self) -> Seq<ValueView> {
        values_view(self.values@).skip(self.pos as int)
    }

    /// Starts at the first item of `values`.
    pub fn new(key: &'a str, values: &'a Vec<ConfigValue>) -> (r: Self)
        ensures
            r.key() == key@,
            r.remaining() == values_view(values@),
    {
        ArrayIterator { key, values, pos: 0 }
    }

    /// Gives the next argument, or the error of the next item that has none
    /// to give because it is an array or a table; `None` when no item is left.
    /// A `false` is passed over in silence.
    pub fn next(&mut self) -> (r: Option<Result<String, Error>>)
        ensures
            item_view(r) == next_arg(old(self).key(), old(self).remaining()).0,
            final(self).remaining() == next_arg(old(self).key(), old(self).remaining()).1,
            final(self).key() == old(self).key(),
    {
        proof {
            use_type_invariant(&*self);
        }
        while self.pos < self.values.len()
            invariant
                self.pos <= self.values@.len(),
                self.key == old(self).key,
                self.values == old(self).values,
                next_arg(old(self).key(), old(self).remaining()) == next_arg(
                    self.key(),
                    self.remaining(),
                ),
            decreases self.values@.len() - self.pos,
        {
            let ghost before = self.remaining();
            let r = parse_primitive_arg(self.key, &self.values[self.pos]);
            self.pos = self.pos + 1;
            assert(before.drop_first() == self.remaining());
            match r {
                Ok(None) => {},
                Ok(Some(t)) => {
                    return Some(Ok(t));
                },
                Err(e) => {
                    return Some(Err(e));
                },
            }
        }
        None
    }
}

/// One call of [`ArrayIterator::next`] takes the arguments of an array
/// apart: nothing left means no arguments, an error is the array's error,
/// and an argument is followed by the arguments of the items after it. When
/// the call gives something, fewer items are left after it.
pub proof fn array_args_by_next(key: Seq<char>, items: Seq<ValueView>)
    ensures
        array_args(key, items) == match next_arg(key, items).0 {
            None => Ok(Seq::empty()),
            Some(Err(e)) => Err(e),
            Some(Ok(t)) => prepend(seq![t], array_args(key, next_arg(key, items).1)),
        },
        next_arg(key, items).0 is Some ==> next_arg(key, items).1.len() < items.len(),
        next_arg(key, items).1.len() <= items.len(),
    decreases items.len(),
{
    if items.len() > 0 {
        array_args_by_next(key, items.drop_first());
        if let Ok(args) = array_args(key, items.drop_first()) {
            assert(Seq::<Seq<char>>::empty() + args =~= args);
        }
    }
}

/// Writes the arguments of one entry: at most one for a primitive, those of
/// its items for an array of primitives. A table, or an array that holds an
/// array or a table, gives the error that names the key, and nothing else.
pub fn parse_arg(k: &str, v: &ConfigValue) -> (r: Result<Vec<String>, Error>)
    ensures
        args_view(r) == entry_args(k@, v@),
{
    proof {
        view_of_container(*v);
    }
    match v {
        ConfigValue::Array(items) => {
            let mut iter = ArrayIterator::new(k, items);
            let mut args: Vec<String> = Vec::new();
            assert(Seq::<Seq<char>>::empty() + array_args(k@, iter.remaining())->Ok_0
                =~= array_args(k@, iter.remaining())->Ok_0);
            loop
                invariant
                    iter.key() == k@,
                    entry_args(k@, v@) == prepend(texts(args@), array_args(k@, iter.remaining())),
                decreases iter.remaining().len(),
            {
                proof {
                    array_args_by_next(k@, iter.remaining());
                }
                let ghost so_far = texts(args@);
                match iter.next() {
                    None => {
                        assert(so_far + Seq::<Seq<char>>::empty() =~= so_far);
                        return Ok(args);
                    },
                    Some(Err(e)) => {
                        return Err(e);
                    },
                    Some(Ok(t)) => {
                        args.push(t);
                        proof {
                            assert(texts(args@) =~= so_far.push(t@));
                            if let Ok(rest) = array_args(k@, iter.remaining()) {
                                assert(so_far + (seq![t@] + rest) =~= so_far.push(t@) + rest);
                            }
                        }
                    },
                }
            }
        },
        ConfigValue::Table(_) => Err(
            Error::UnsupportedShape { key: String::from_str(k), shape: Shape::Table },
        ),
        _ => match parse_primitive_arg(k, v) {
            Ok(Some(t)) => {
                let mut args: Vec<String> = Vec::new();
                args.push(t);
                assert(texts(args@) =~= seq![t@]);
                Ok(args)
            },
            Ok(None) => {
                let args: Vec<String> = Vec::new();
                assert(texts(args@) =~= Seq::<Seq<char>>::empty());
                Ok(args)
            },
            Err(e) => Err(e),
        },
    }
}

/// What a parser reads back from the argument of a primitive value, when it
/// knows the key and that a value of the kind of `like` is meant. For a
/// boolean it is whether the flag is there. For the other kinds it is the
/// text behind `--key=`, read as a decimal number where an integer is meant;
/// an argument of another form reads back as nothing.
pub open spec fn read_back(key: Seq<char>, like: ValueView, arg: Option<Seq<char>>) -> Option<
    ValueView,
> {
    let text = match arg {
        Some(token) => token_value(key, token),
        None => None,
    };
    match (like, text) {
        (ValueView::Boolean(_), _) => Some(ValueView::Boolean(arg == Some(flag_token(key)))),
        (ValueView::String(_), Some(t)) => Some(ValueView::String(t)),
        (ValueView::Integer(_), Some(t)) => Some(ValueView::Integer(decimal_value(t))),
        (ValueView::Float(_), Some(t)) => Some(ValueView::Float(t)),
        (ValueView::Datetime(_), Some(t)) => Some(ValueView::Datetime(t)),
        _ => None,
    }
}

/// A primitive value always has its argument, and the argument reads back as
/// the value. Of a boolean only the flag's presence is written: `true` reads
/// back from the flag, `false` from its absence, and no argument ever says
/// `false` in words.
pub proof fn primitive_arg_reads_back(key: Seq<char>, v: ValueView)
    requires
        v.is_primitive(),
    ensures
        primitive_arg(key, v) is Ok,
        read_back(key, v, primitive_arg(key, v)->Ok_0) == Some(v),
        v == ValueView::Boolean(false) <==> primitive_arg(key, v)->Ok_0 is None,
{
    match v {
        ValueView::String(s) => token_value_of_key_value_token(key, s),
        ValueView::Integer(n) => {
            token_value_of_key_value_token(key, decimal(n));
            decimal_value_of_decimal(n);
        },
        ValueView::Float(t) => token_value_of_key_value_token(key, t),
        ValueView::Datetime(t) => token_value_of_key_value_token(key, t),
        _ => {},
    }
}

/// How many items of `items` are the boolean `false`.
pub open spec fn falses(items: Seq<ValueView>) -> nat
    decreases items.len(),
{
    if items.len() == 0 {
        0
    } else if items.first() == ValueView::Boolean(false) {
        1 + falses(items.drop_first())
    } else {
        falses(items.drop_first())
    }
}

/// Whether `token` is written under `key`: it is `--key` or begins with it.
pub open spec fn tied_to(key: Seq<char>, token: Seq<char>) -> bool {
    flag_token(key).is_prefix_of(token)
}

/// An array has arguments exactly when each of its items is a primitive.
/// There are then as many arguments as items that are not `false`, and each
/// is written under the array's key.
pub proof fn array_args_of_primitives(key: Seq<char>, items: Seq<ValueView>)
    ensures
        array_args(key, items) is Ok <==> forall|i: int|
            0 <= i < items.len() ==> (#[trigger] items[i]).is_primitive(),
        array_args(key, items) matches Ok(args) ==> {
            &&& falses(items) <= items.len()
            &&& args.len() == items.len() - falses(items)
            &&& forall|j: int| 0 <= j < args.len() ==> tied_to(key, #[trigger] args[j])
        },
    decreases items.len(),
{
    if items.len() > 0 {
        let rest = items.drop_first();
        array_args_of_primitives(key, rest);
        assert forall|i: int| 0 <= i < rest.len() implies (#[trigger] rest[i]).is_primitive()
            == items[i + 1].is_primitive() by {}
        if array_args(key, items) is Ok {
            assert forall|i: int| 0 <= i < items.len() implies (#[trigger] items[i]).is_primitive() by {
                if i > 0 {
                    assert(rest[i - 1].is_primitive());
                }
            }
        }
    }
}

/// The arguments of an array come in the order of its items: those of the
/// items in front, then those of the items behind; and a failure in front is
/// the failure of the whole.
pub proof fn array_args_in_order(key: Seq<char>, front: Seq<ValueView>, back: Seq<ValueView>)
    ensures
        array_args(key, front + back) == match array_args(key, front) {
            Ok(args) => prepend(args, array_args(key, back)),
            Err(e) => Err(e),
        },
    decreases front.len(),
{
    if front.len() == 0 {
        assert(front + back =~= back);
        assert(Seq::<Seq<char>>::empty() + array_args(key, back)->Ok_0 =~= array_args(
            key,
            back,
        )->Ok_0);
    } else {
        array_args_in_order(key, front.drop_first(), back);
        assert((front + back).drop_first() =~= front.drop_first() + back);
        let head = optional(primitive_arg(key, front.first())->Ok_0);
        let mid = array_args(key, front.drop_first())->Ok_0;
        let tail = array_args(key, back)->Ok_0;
        assert(head + (mid + tail) =~= (head + mid) + tail);
    }
}

/// The error of an array names the array's key.
pub proof fn array_args_error_names_key(key: Seq<char>, items: Seq<ValueView>)
    ensures
        array_args(key, items) matches Err(e) ==> e is UnsupportedShape && e->key == key,
    decreases items.len(),
{
    if items.len() > 0 {
        array_args_error_names_key(key, items.drop_first());
    }
}

/// An entry has arguments exactly when its value is a primitive or an array
/// of primitives. Otherwise its error names the entry's key.
pub proof fn entry_args_of_supported(key: Seq<char>, v: ValueView)
    ensures
        entry_args(key, v) is Ok <==> v.is_supported(),
        entry_args(key, v) matches Err(e) ==> e is UnsupportedShape && e->key == key,
{
    if let ValueView::Array(items) = v {
        array_args_of_primitives(key, items);
        array_args_error_names_key(key, items);
    }
}

/// The arguments of a list of entries come in the order of the entries:
/// those of the entries in front, then those of the entries behind; and a
/// failure in front is the failure of the whole.
pub proof fn table_args_in_order(
    front: Seq<(Seq<char>, ValueView)>,
    back: Seq<(Seq<char>, ValueView)>,
)
    ensures
        table_args(front + back) == match table_args(front) {
            Ok(args) => prepend(args, table_args(back)),
            Err(e) => Err(e),
        },
    decreases front.len(),
{
    if front.len() == 0 {
        assert(front + back =~= back);
        assert(Seq::<Seq<char>>::empty() + table_args(back)->Ok_0 =~= table_args(back)->Ok_0);
    } else {
        table_args_in_order(front.drop_first(), back);
        assert((front + back).drop_first() =~= front.drop_first() + back);
        let head = entry_args(front.first().0, front.first().1)->Ok_0;
        let mid = table_args(front.drop_first())->Ok_0;
        let tail = table_args(back)->Ok_0;
        assert(head + (mid + tail) =~= (head + mid) + tail);
    }
}

/// One entry whose value is a table, or an array that holds an array or a
/// table, makes the translation of the whole list fail: the outcome is an
/// error, which holds no argument of any entry. Where every entry in front
/// of it is a primitive or an array of primitives, the error is this entry's
/// own and names its key.
pub proof fn table_args_fails_on_unsupported(entries: Seq<(Seq<char>, ValueView)>, i: int)
    requires
        0 <= i < entries.len(),
        !entries[i].1.is_supported(),
    ensures
        table_args(entries) is Err,
        (forall|j: int| 0 <= j < i ==> (#[trigger] entries[j]).1.is_supported()) ==> {
            &&& entry_args(entries[i].0, entries[i].1) is Err
            &&& table_args(entries)->Err_0 == entry_args(entries[i].0, entries[i].1)->Err_0
            &&& table_args(entries)->Err_0 is UnsupportedShape
            &&& table_args(entries)->Err_0->key == entries[i].0
        },
    decreases entries.len(),
{
    entry_args_of_supported(entries[0].0, entries[0].1);
    if i > 0 {
        let rest = entries.drop_first();
        table_args_fails_on_unsupported(rest, i - 1);
        assert forall|j: int| 0 <= j < i - 1 implies (#[trigger] rest[j]).1 == entries[j + 1].1 by {}
    }
}

/// A list of entries has arguments exactly when every value in it is a
/// primitive or an array of primitives.
pub proof fn table_args_of_supported(entries: Seq<(Seq<char>, ValueView)>)
    ensures
        table_args(entries) is Ok <==> forall|i: int|
            0 <= i < entries.len() ==> (#[trigger] entries[i]).1.is_supported(),
    decreases entries.len(),
{
    if entries.len() > 0 {
        let rest = entries.drop_first();
        table_args_of_supported(rest);
        entry_args_of_supported(entries[0].0, entries[0].1);
        assert forall|i: int| 0 <= i < rest.len() implies (#[trigger] rest[i]).1 == entries[i
            + 1].1 by {}
        if table_args(entries) is Ok {
            assert forall|i: int| 0 <= i < entries.len() implies (#[trigger] entries[i]).1.is_supported() by {
                if i > 0 {
                    assert(rest[i - 1].1.is_supported());
                }
            }
        }
    }
}

} // verus!
