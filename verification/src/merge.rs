//! The argument merger: it finds the references to configuration files in an
//! argument list and puts the arguments of each configuration in its place.

use crate::error::{ConfigError, ConfigErrorView, Error, ErrorView};
use crate::format::Format;
use crate::text::texts;
use vstd::prelude::*;
use vstd::string::*;

verus! {

/// Tells a reference to a configuration file from an ordinary argument.
///
/// A filter looks at one argument at a time and at nothing else: what it
/// answers is a function of the argument's text.
pub trait Filter {
    /// The path of the configuration that `arg` refers to, or `None` where
    /// `arg` is an ordinary argument.
    spec fn path(&self, arg: Seq<char>) -> Option<Seq<char>>;

    /// Returns the path of the configuration that `arg` refers to, or `None`
    /// where `arg` is an ordinary argument.
    fn apply<'a>(&self, arg: &'a str) -> (r: Option<&'a str>)
        ensures
            path_view(r) == self.path(arg@),
    ;
}

/// The model of a filter's answer.
pub open spec fn path_view(r: Option<&str>) -> Option<Seq<char>> {
    match r {
        Some(path) => Some(path@),
        None => None,
    }
}

/// What is left of `arg` behind a leading `c`, or `None` where `arg` does not
/// begin with `c`.
pub open spec fn strip_prefix_char(c: char, arg: Seq<char>) -> Option<Seq<char>> {
    if arg.len() > 0 && arg[0] == c {
        Some(arg.skip(1))
    } else {
        None
    }
}

/// Takes an argument that begins with `c` for a reference to a configuration:
/// the path is what follows `c`. Any other argument is an ordinary one.
pub fn prefix_char_filter<'a>(c: char, arg: &'a str) -> (r: Option<&'a str>)
    ensures
        path_view(r) == strip_prefix_char(c, arg@),
{
    let len: usize = arg.unicode_len();
    if len > 0 && arg.get_char(0) == c {
        let rest = arg.substring_char(1, len);
        Some(rest)
    } else {
        None
    }
}

/// The filter that takes the arguments that begin with one given character
/// for references, as [`prefix_char_filter`] does.
#[derive(Clone, Copy, Debug)]
pub struct PrefixChar(pub char);

impl Filter for PrefixChar {
    open spec fn path(&self, arg: Seq<char>) -> Option<Seq<char>> {
        strip_prefix_char(self.0, arg)
    }

    fn apply<'a>(&self, arg: &'a str) -> (r: Option<&'a str>) {
        prefix_char_filter(self.0, arg)
    }
}

/// What a [`Merger`] stands for.
pub struct MergerView {
    /// The arguments that are merged already, in their order.
    pub merged: Seq<Seq<char>>,
    /// The arguments that are still to be looked at.
    pub rest: Seq<Seq<char>>,
    /// Whether `rest` still begins with the program's own name.
    pub first: bool,
}

/// What a [`Pending`] stands for.
pub struct PendingView {
    /// The arguments that are merged already, in their order.
    pub merged: Seq<Seq<char>>,
    /// The path of the configuration that is asked for.
    pub path: Seq<char>,
    /// The arguments behind the reference, still to be looked at.
    pub rest: Seq<Seq<char>>,
}

/// What a [`Step`] stands for.
pub enum StepView {
    Load(PendingView),
    Done(Seq<Seq<char>>),
}

/// Where the merger stops next. The program's own name, which comes first, is
/// no reference whatever the filter says of it, and every ordinary argument
/// is passed on as it is. The merger stops at the first reference and asks
/// for its configuration, or at the end with the merged arguments.
pub open spec fn next_step<F: Filter>(filter: &F, m: MergerView) -> StepView
    decreases m.rest.len(),
{
    if m.rest.len() == 0 {
        StepView::Done(m.merged)
    } else {
        let found = if m.first {
            None
        } else {
            filter.path(m.rest.first())
        };
        match found {
            Some(path) => StepView::Load(
                PendingView { merged: m.merged, path, rest: m.rest.drop_first() },
            ),
            None => next_step(
                filter,
                MergerView {
                    merged: m.merged.push(m.rest.first()),
                    rest: m.rest.drop_first(),
                    first: false,
                },
            ),
        }
    }
}

/// Whether the argument at `i` of those that are still to be looked at is a
/// reference to a configuration.
pub open spec fn is_reference<F: Filter>(filter: &F, m: MergerView, i: int) -> bool {
    !(m.first && i == 0) && filter.path(m.rest[i]) is Some
}

/// The merger passes ordinary arguments on unchanged and in their order, and
/// stops at the first reference: with no reference among the first `n`
/// arguments, these are merged as they are. If they are all there is, the
/// merge is done. If a reference follows them, its configuration is asked
/// for, and what stands behind it is kept for later.
pub proof fn next_step_passes_ordinary<F: Filter>(filter: &F, m: MergerView, n: int)
    requires
        0 <= n <= m.rest.len(),
        forall|i: int| 0 <= i < n ==> !is_reference(filter, m, i),
    ensures
        next_step(filter, m) == next_step(
            filter,
            MergerView {
                merged: m.merged + m.rest.take(n),
                rest: m.rest.skip(n),
                first: m.first && n == 0,
            },
        ),
        n == m.rest.len() ==> next_step(filter, m) == StepView::Done(m.merged + m.rest),
        n < m.rest.len() && is_reference(filter, m, n) ==> next_step(filter, m) == StepView::Load(
            PendingView {
                merged: m.merged + m.rest.take(n),
                path: filter.path(m.rest[n])->0,
                rest: m.rest.skip(n + 1),
            },
        ),
    decreases n,
{
    let reached = MergerView {
        merged: m.merged + m.rest.take(n),
        rest: m.rest.skip(n),
        first: m.first && n == 0,
    };
    if n == 0 {
        assert(m.rest.skip(0) =~= m.rest);
    } else {
        next_step_passes_ordinary(filter, m, n - 1);
        let before = MergerView {
            merged: m.merged + m.rest.take(n - 1),
            rest: m.rest.skip(n - 1),
            first: m.first && n - 1 == 0,
        };
        assert(!is_reference(filter, m, n - 1));
        assert(before.rest.drop_first() =~= m.rest.skip(n));
        assert(before.merged.push(m.rest[n - 1]) =~= m.merged + m.rest.take(n));
    }
    if n == m.rest.len() {
        assert(m.rest.take(n) =~= m.rest);
    } else {
        assert(reached.rest.drop_first() =~= m.rest.skip(n + 1));
    }
}

/// What a configuration gives once it was read, or once reading it failed
/// with a complaint.
pub open spec fn loaded_args<T: Format>(loaded: Result<Seq<u8>, Seq<char>>) -> Result<
    Seq<Seq<char>>,
    ErrorView,
> {
    match loaded {
        Ok(bytes) => T::arguments(bytes),
        Err(complaint) => Err(ErrorView::Io(complaint)),
    }
}

/// The merger after a configuration was supplied: its arguments stand where
/// the reference stood. A configuration that failed makes the whole fail,
/// with the path and the cause.
pub open spec fn supplied(p: PendingView, args: Result<Seq<Seq<char>>, ErrorView>) -> Result<
    MergerView,
    ConfigErrorView,
> {
    match args {
        Ok(tokens) => Ok(MergerView { merged: p.merged + tokens, rest: p.rest, first: false }),
        Err(cause) => Err(ConfigErrorView { path: p.path, cause }),
    }
}

/// What the whole merge comes to, where `read` says for each path what
/// reading the file there gives. The arguments are gone through in their
/// order. The program's own name and every ordinary argument are kept as
/// they are; a reference is replaced by the arguments of its configuration;
/// and the first configuration that cannot be read or translated makes the
/// whole an error, which holds no argument at all.
pub open spec fn merge_outcome<F: Filter, T: Format>(
    filter: &F,
    m: MergerView,
    read: spec_fn(Seq<char>) -> Result<Seq<u8>, Seq<char>>,
) -> Result<Seq<Seq<char>>, ConfigErrorView>
    decreases m.rest.len(),
{
    if m.rest.len() == 0 {
        Ok(m.merged)
    } else {
        let found = if m.first {
            None
        } else {
            filter.path(m.rest.first())
        };
        match found {
            None => merge_outcome::<F, T>(
                filter,
                MergerView {
                    merged: m.merged.push(m.rest.first()),
                    rest: m.rest.drop_first(),
                    first: false,
                },
                read,
            ),
            Some(path) => match loaded_args::<T>(read(path)) {
                Ok(tokens) => merge_outcome::<F, T>(
                    filter,
                    MergerView {
                        merged: m.merged + tokens,
                        rest: m.rest.drop_first(),
                        first: false,
                    },
                    read,
                ),
                Err(cause) => Err(ConfigErrorView { path, cause }),
            },
        }
    }
}

/// Stepping through a merge gives what the whole merge comes to: where the
/// merger is done, its arguments are the outcome; where it asks for a
/// configuration and is supplied with what reading the file gives, the
/// outcome is that of going on from there, or the failure of the supply.
pub proof fn merge_outcome_by_steps<F: Filter, T: Format>(
    filter: &F,
    m: MergerView,
    read: spec_fn(Seq<char>) -> Result<Seq<u8>, Seq<char>>,
)
    ensures
        merge_outcome::<F, T>(filter, m, read) == match next_step(filter, m) {
            StepView::Done(args) => Ok(args),
            StepView::Load(p) => match supplied(p, loaded_args::<T>(read(p.path))) {
                Ok(next) => merge_outcome::<F, T>(filter, next, read),
                Err(e) => Err(e),
            },
        },
    decreases m.rest.len(),
{
    if m.rest.len() > 0 && (m.first || filter.path(m.rest.first()) is None) {
        merge_outcome_by_steps::<F, T>(
            filter,
            MergerView {
                merged: m.merged.push(m.rest.first()),
                rest: m.rest.drop_first(),
                first: false,
            },
            read,
        );
    }
}

/// The model of what was read from a file, or of the complaint.
pub open spec fn loaded_view(loaded: Result<Vec<u8>, String>) -> Result<Seq<u8>, Seq<char>> {
    match loaded {
        Ok(bytes) => Ok(bytes@),
        Err(complaint) => Err(complaint@),
    }
}

/// The model of what [`Pending::supply`] returns.
pub open spec fn supply_view(r: Result<Merger, ConfigError>) -> Result<
    MergerView,
    ConfigErrorView,
> {
    match r {
        Ok(m) => Ok(m@),
        Err(e) => Err(e@),
    }
}

/// An argument list on its way to being merged. The list begins with the
/// program's own name.
#[derive(Debug)]
pub struct Merger {
    args: Vec<String>,
    pos: usize,
    merged: Vec<String>,
}

/// A merger that waits for the configuration at [`Pending::path`].
#[derive(Debug)]
pub struct Pending {
    args: Vec<String>,
    pos: usize,
    merged: Vec<String>,
    path: String,
}

/// Where a merger stopped: at a reference, whose configuration the caller is
/// to read and supply, or at the end, with the merged arguments.
#[derive(Debug)]
pub enum Step {
    Load(Pending),
    Done(Vec<String>),
}

impl View for Merger {
    type V = MergerView;

    closed spec fn view(&self) -> MergerView {
        MergerView {
            merged: texts(self.merged@),
            rest: texts(self.args@).skip(self.pos as int),
            first: self.pos == 0,
        }
    }
}

impl View for Pending {
    type V = PendingView;

    closed spec fn view(&self) -> PendingView {
        PendingView {
            merged: texts(self.merged@),
            path: self.path@,
            rest: texts(self.args@).skip(self.pos as int),
        }
    }
}

impl View for Step {
    type V = StepView;

    open spec fn view(&self) -> StepView {
        match self {
            Step::Load(pending) => StepView::Load(pending@),
            Step::Done(args) => StepView::Done(texts(args@)),
        }
    }
}

impl Merger {
    #[verifier::type_invariant]
    spec fn in_bounds(self) -> bool {
        self.pos <= self.args@.len()
    }

    /// Starts on `args`, the program's own name first, with nothing merged.
    pub fn new(args: Vec<String>) -> (r: Merger)
        ensures
            r@ == (MergerView { merged: Seq::empty(), rest: texts(args@), first: true }),
    {
        let r = Merger { args, pos: 0, merged: Vec::new() };
        assert(r@.merged =~= Seq::<Seq<char>>::empty());
        assert(r@.rest =~= texts(args@));
        r
    }

    /// Passes the ordinary arguments on until the next reference or the end.
    pub fn step<F: Filter>(self, filter: &F) -> (r: Step)
        ensures
            r@ == next_step(filter, self@),
    {
        proof {
            use_type_invariant(&self);
        }
        let ghost start = self@;
        let Merger { args, mut pos, mut merged } = self;
        while pos < args.len()
            invariant
                pos <= args@.len(),
                start == self@,
                next_step(filter, start) == next_step(
                    filter,
                    MergerView {
                        merged: texts(merged@),
                        rest: texts(args@).skip(pos as int),
                        first: pos == 0,
                    },
                ),
            decreases args@.len() - pos,
        {
            let ghost so_far = texts(merged@);
            let ghost rest = texts(args@).skip(pos as int);
            assert(rest.drop_first() =~= texts(args@).skip(pos + 1));
            let found = filter.apply(args[pos].as_str());
            if pos > 0 {
                if let Some(path) = found {
                    let path = String::from_str(path);
                    let pending = Pending { args, pos: pos + 1, merged, path };
                    assert(pending@ == PendingView {
                        merged: so_far,
                        path: path@,
                        rest: rest.drop_first(),
                    });
                    return Step::Load(pending);
                }
            }
            merged.push(args[pos].clone());
            assert(texts(merged@) =~= so_far.push(args@[pos as int]@));
            pos = pos + 1;
        }
        Step::Done(merged)
    }
}

impl Pending {
    #[verifier::type_invariant]
    spec fn in_bounds(self) -> bool {
        0 < self.pos <= self.args@.len()
    }

    /// The path of the configuration that the merger waits for.
    pub fn path(&self) -> (r: &str)
        ensures
            r@ == self@.path,
    {
        self.path.as_str()
    }

    /// Supplies what reading the file at [`Pending::path`] gave: its bytes,
    /// or the reader's complaint. The arguments that the format `T` makes of
    /// the bytes take the place of the reference. Where the file could not be
    /// read, or `T` fails on it, the whole merge fails with the path and the
    /// cause, and nothing of the argument list is kept.
    pub fn supply<T: Format>(self, loaded: Result<Vec<u8>, String>) -> (r: Result<
        Merger,
        ConfigError,
    >)
        ensures
            supply_view(r) == supplied(self@, loaded_args::<T>(loaded_view(loaded))),
    {
        proof {
            use_type_invariant(&self);
        }
        let Pending { args, pos, mut merged, path } = self;
        let parsed = match loaded {
            Ok(bytes) => T::from_slice(bytes.as_slice()),
            Err(complaint) => Err(Error::Io(complaint)),
        };
        match parsed {
            Ok(mut tokens) => {
                let ghost so_far = texts(merged@);
                let ghost added = texts(tokens@);
                merged.append(&mut tokens);
                assert(texts(merged@) =~= so_far + added);
                Ok(Merger { args, pos, merged })
            },
            Err(cause) => Err(ConfigError { path, cause }),
        }
    }
}

} // verus!
