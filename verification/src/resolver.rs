//! Which function a bare name refers to when a window call is built.
//!
//! Four places are asked in a fixed order, and the first that knows the name
//! wins: the engine's built-in window functions; then, where a session is at
//! hand, its user-defined aggregate functions, its window functions and its
//! aggregate functions; then the aggregate functions that the engine offers
//! without a session, by name or alias. A name that none of them knows is an
//! error that carries the name.

use crate::engine::{
    builtin_window_function, default_aggregate_functions, find_builtin_window_function,
    session_aggregate_function, session_udaf, session_window_function,
};
use crate::expr::{FunctionHandle, FunctionSource, HandleView};
use datafusion::execution::context::SessionContext;
use vstd::prelude::*;

verus! {

/// One of the aggregate functions that the engine offers without a session:
/// its canonical name and the other names it answers to.
#[derive(Clone, Debug, PartialEq, Eq)]
pub struct FunctionEntry {
    pub name: String,
    pub aliases: Vec<String>,
}

/// The mathematical value of a [`FunctionEntry`].
pub ghost struct EntryView {
    pub name: Seq<char>,
    pub aliases: Seq<Seq<char>>,
}

/// The texts of the strings in `v`, in the same order.
pub open spec fn texts(v: Seq<String>) -> Seq<Seq<char>> {
    Seq::new(v.len(), |i: int| v[i]@)
}

impl View for FunctionEntry {
    type V = EntryView;

    open spec fn view(&self) -> EntryView {
        EntryView { name: self.name@, aliases: texts(self.aliases@) }
    }
}

/// The values of the entries in `v`, in the same order.
pub open spec fn entries(v: Seq<FunctionEntry>) -> Seq<EntryView> {
    Seq::new(v.len(), |i: int| v[i]@)
}

/// What the three registries of a session hold under one name: for each
/// registry the name of the function found there, if any.
#[derive(Clone, Debug, PartialEq, Eq)]
pub struct SessionLookup {
    pub udaf: Option<String>,
    pub window_function: Option<String>,
    pub aggregate_function: Option<String>,
}

/// The mathematical value of a [`SessionLookup`].
pub ghost struct LookupView {
    pub udaf: Option<Seq<char>>,
    pub window_function: Option<Seq<char>>,
    pub aggregate_function: Option<Seq<char>>,
}

/// The text of an optional string.
pub open spec fn text(o: Option<String>) -> Option<Seq<char>> {
    match o {
        Some(s) => Some(s@),
        None => None,
    }
}

impl View for SessionLookup {
    type V = LookupView;

    open spec fn view(&self) -> LookupView {
        LookupView {
            udaf: text(self.udaf),
            window_function: text(self.window_function),
            aggregate_function: text(self.aggregate_function),
        }
    }
}

/// The value of an optional lookup.
pub open spec fn lookup_view(session: Option<SessionLookup>) -> Option<LookupView> {
    match session {
        Some(lookup) => Some(lookup@),
        None => None,
    }
}

/// Why a name could not be resolved.
#[derive(Clone, Debug, PartialEq, Eq)]
pub enum ResolveError {
    /// No place knows a function of this name.
    NotFound { name: String },
}

/// The mathematical value of a [`ResolveError`].
pub ghost enum ResolveErrorView {
    NotFound { name: Seq<char> },
}

impl View for ResolveError {
    type V = ResolveErrorView;

    open spec fn view(&self) -> ResolveErrorView {
        match self {
            ResolveError::NotFound { name } => ResolveErrorView::NotFound { name: name@ },
        }
    }
}

impl ResolveError {
    /// The error as a sentence that quotes the name.
    pub fn message(&self) -> (r: String)
        ensures
            r@ == "window function `"@ + self@->name + "` not found"@,
    {
        match self {
            ResolveError::NotFound { name } => {
                let mut r = String::from_str("window function `");
                r.append(name.as_str());
                r.append("` not found");
                r
            },
        }
    }
}

/// The value of the outcome of a resolution.
pub open spec fn resolution(r: Result<FunctionHandle, ResolveError>) -> Result<
    HandleView,
    ResolveErrorView,
> {
    match r {
        Ok(handle) => Ok(handle@),
        Err(e) => Err(e@),
    }
}

/// The handle of the function `name` found in `source`.
pub open spec fn found(source: FunctionSource, name: Seq<char>) -> HandleView {
    HandleView { source, name }
}

/// `entry` answers to `name`: by its canonical name or by one of its aliases,
/// letter for letter.
pub open spec fn answers_to(entry: EntryView, name: Seq<char>) -> bool {
    entry.name == name || entry.aliases.contains(name)
}

/// `i` is the position of the first entry of `defaults` that answers to
/// `name`.
pub open spec fn is_first_answer(defaults: Seq<EntryView>, name: Seq<char>, i: int) -> bool {
    &&& 0 <= i < defaults.len()
    &&& answers_to(defaults[i], name)
    &&& forall|j: int| 0 <= j < i ==> !answers_to(#[trigger] defaults[j], name)
}

/// The canonical name of the first entry of `defaults` that answers to
/// `name`, if any does.
pub open spec fn default_answer(defaults: Seq<EntryView>, name: Seq<char>) -> Option<Seq<char>> {
    if exists|i: int| is_first_answer(defaults, name, i) {
        Some(defaults[choose|i: int| is_first_answer(defaults, name, i)].name)
    } else {
        None
    }
}

/// The function that a session gives: the user-defined aggregate function
/// where there is one, else the window function, else the aggregate function.
/// Without a session there is none.
pub open spec fn session_answer(session: Option<LookupView>) -> Option<HandleView> {
    match session {
        Some(lookup) => {
            if let Some(name) = lookup.udaf {
                Some(found(FunctionSource::SessionUdaf, name))
            } else if let Some(name) = lookup.window_function {
                Some(found(FunctionSource::SessionWindow, name))
            } else if let Some(name) = lookup.aggregate_function {
                Some(found(FunctionSource::SessionAggregate, name))
            } else {
                None
            }
        },
        None => None,
    }
}

/// The function that `name` refers to, given what each place answered:
/// `builtin` is the engine's built-in window function of that name, `session`
/// what the session's registries hold under it, `defaults` the engine's
/// default aggregate functions. The first place that knows the name wins.
pub open spec fn resolved(
    name: Seq<char>,
    builtin: Option<Seq<char>>,
    session: Option<LookupView>,
    defaults: Seq<EntryView>,
) -> Result<HandleView, ResolveErrorView> {
    if let Some(canonical) = builtin {
        Ok(found(FunctionSource::Builtin, canonical))
    } else if let Some(handle) = session_answer(session) {
        Ok(handle)
    } else if let Some(canonical) = default_answer(defaults, name) {
        Ok(found(FunctionSource::DefaultAggregate, canonical))
    } else {
        Err(ResolveErrorView::NotFound { name })
    }
}

/// Whether `list` holds `name`, letter for letter.
fn holds(list: &Vec<String>, name: &String) -> (r: bool)
    ensures
        r == texts(list@).contains(name@),
{
    let mut i: usize = 0;
    while i < list.len()
        invariant
            i <= list.len(),
            forall|j: int| 0 <= j < i ==> texts(list@)[j] != name@,
        decreases list.len() - i,
    {
        if list[i] == *name {
            assert(texts(list@)[i as int] == name@);
            return true;
        }
        i = i + 1;
    }
    false
}

/// The position of the first entry of `defaults` that answers to `name`, if
/// any does.
pub fn find_default(name: &str, defaults: &Vec<FunctionEntry>) -> (r: Option<usize>)
    ensures
        match r {
            Some(i) => is_first_answer(entries(defaults@), name@, i as int),
            None => forall|j: int|
                0 <= j < defaults@.len() ==> !answers_to(#[trigger] entries(defaults@)[j], name@),
        },
{
    let wanted = name.to_owned();
    let mut i: usize = 0;
    while i < defaults.len()
        invariant
            i <= defaults.len(),
            wanted@ == name@,
            forall|j: int| 0 <= j < i ==> !answers_to(#[trigger] entries(defaults@)[j], name@),
        decreases defaults.len() - i,
    {
        if defaults[i].name == wanted || holds(&defaults[i].aliases, &wanted) {
            assert(answers_to(entries(defaults@)[i as int], name@));
            return Some(i);
        }
        assert(!answers_to(entries(defaults@)[i as int], name@));
        i = i + 1;
    }
    None
}

/// The first entry that answers to a name is at one position only, and
/// [`default_answer`] is its canonical name.
pub proof fn lemma_first_answer(defaults: Seq<EntryView>, name: Seq<char>, i: int)
    requires
        is_first_answer(defaults, name, i),
    ensures
        default_answer(defaults, name) == Some(defaults[i].name),
{
    let chosen = choose|k: int| is_first_answer(defaults, name, k);
    assert(is_first_answer(defaults, name, chosen));
    if chosen < i {
        assert(!answers_to(defaults[chosen], name));
    }
    if i < chosen {
        assert(!answers_to(defaults[i], name));
    }
}

/// Where no entry answers to a name, [`default_answer`] is none.
pub proof fn lemma_no_answer(defaults: Seq<EntryView>, name: Seq<char>)
    requires
        forall|j: int| 0 <= j < defaults.len() ==> !answers_to(#[trigger] defaults[j], name),
    ensures
        default_answer(defaults, name) is None,
{
    if exists|i: int| is_first_answer(defaults, name, i) {
        let i = choose|i: int| is_first_answer(defaults, name, i);
        assert(!answers_to(defaults[i], name));
    }
}

/// Where some entry answers to a name, [`default_answer`] is the canonical
/// name of an entry that does.
pub proof fn lemma_some_answer(defaults: Seq<EntryView>, name: Seq<char>, k: int)
    requires
        0 <= k < defaults.len(),
        answers_to(defaults[k], name),
    ensures
        exists|i: int| is_first_answer(defaults, name, i),
        default_answer(defaults, name) is Some,
    decreases k,
{
    if forall|j: int| 0 <= j < k ==> !answers_to(#[trigger] defaults[j], name) {
        assert(is_first_answer(defaults, name, k));
    } else {
        let j = choose|j: int| 0 <= j < k && answers_to(#[trigger] defaults[j], name);
        lemma_some_answer(defaults, name, j);
    }
}

/// A handle of the function `name` found in `source`.
fn handle(source: FunctionSource, name: String) -> (r: FunctionHandle)
    ensures
        r@ == found(source, name@),
{
    FunctionHandle { source, name }
}

/// Resolves `name` from what each place answered: `builtin` is what the
/// engine's built-in window functions hold under the name, `session` what the
/// registries of the session at hand hold under it (none without a session),
/// `defaults` the engine's default aggregate functions.
pub fn resolve(
    name: &str,
    builtin: Option<String>,
    session: Option<SessionLookup>,
    defaults: &Vec<FunctionEntry>,
) -> (r: Result<FunctionHandle, ResolveError>)
    ensures
        resolution(r) == resolved(name@, text(builtin), lookup_view(session), entries(defaults@)),
{
    if let Some(canonical) = builtin {
        return Ok(handle(FunctionSource::Builtin, canonical));
    }
    if let Some(lookup) = session {
        let SessionLookup { udaf, window_function, aggregate_function } = lookup;
        if let Some(found_name) = udaf {
            return Ok(handle(FunctionSource::SessionUdaf, found_name));
        }
        if let Some(found_name) = window_function {
            return Ok(handle(FunctionSource::SessionWindow, found_name));
        }
        if let Some(found_name) = aggregate_function {
            return Ok(handle(FunctionSource::SessionAggregate, found_name));
        }
    }
    match find_default(name, defaults) {
        Some(i) => {
            proof {
                lemma_first_answer(entries(defaults@), name@, i as int);
            }
            Ok(handle(FunctionSource::DefaultAggregate, defaults[i].name.clone()))
        },
        None => {
            proof {
                lemma_no_answer(entries(defaults@), name@);
            }
            Err(ResolveError::NotFound { name: name.to_owned() })
        },
    }
}

/// Resolves `name` for a window call: asks the engine for its built-in
/// window function of that name, the session `ctx` (where there is one) for
/// what its registries hold under the name, and the engine for its default
/// aggregate functions, and then decides as [`resolve`] does.
///
/// What the session and the default set answer is theirs to say, so the
/// outcome is stated for whatever they answered; the built-in tier is the
/// engine's fixed set, and a name in it is owed its built-in function.
pub fn find_window_fn(name: &str, ctx: Option<&SessionContext>) -> (r: Result<
    FunctionHandle,
    ResolveError,
>)
    ensures
        exists|session: Option<LookupView>, defaults: Seq<EntryView>|
            (session is Some <==> ctx is Some) && resolution(r) == #[trigger] resolved(
                name@,
                builtin_window_function(name@),
                session,
                defaults,
            ),
        builtin_window_function(name@) matches Some(canonical) ==> resolution(r) == Ok::<
            HandleView,
            ResolveErrorView,
        >(found(FunctionSource::Builtin, canonical)),
        r matches Ok(h) ==> (h.source == FunctionSource::Builtin
            <==> builtin_window_function(name@) is Some),
        r matches Ok(h) ==> ctx is None ==> h.source == FunctionSource::Builtin || h.source
            == FunctionSource::DefaultAggregate,
        r matches Err(e) ==> e@ == (ResolveErrorView::NotFound { name: name@ }),
{
    let builtin = find_builtin_window_function(name);
    let session = match ctx {
        Some(context) => Some(
            SessionLookup {
                udaf: session_udaf(context, name),
                window_function: session_window_function(context, name),
                aggregate_function: session_aggregate_function(context, name),
            },
        ),
        None => None,
    };
    let defaults = default_aggregate_functions();
    let ghost answers = lookup_view(session);
    let r = resolve(name, builtin, session, &defaults);
    assert(resolution(r) == resolved(
        name@,
        builtin_window_function(name@),
        answers,
        entries(defaults@),
    ));
    r
}

/// A name that the engine's built-in window functions know resolves to the
/// built-in function, whatever a session holds under the same name, be it a
/// user-defined aggregate function or anything else.
pub proof fn lemma_builtin_comes_first(
    name: Seq<char>,
    canonical: Seq<char>,
    session: Option<LookupView>,
    defaults: Seq<EntryView>,
)
    ensures
        resolved(name, Some(canonical), session, defaults) == Ok::<HandleView, ResolveErrorView>(
            found(FunctionSource::Builtin, canonical),
        ),
{
}

/// A name that is no built-in window function and that a session holds both
/// as a user-defined aggregate function and as a window function resolves to
/// the user-defined aggregate function.
pub proof fn lemma_udaf_shadows_window_function(
    name: Seq<char>,
    udaf: Seq<char>,
    window_function: Seq<char>,
    aggregate_function: Option<Seq<char>>,
    defaults: Seq<EntryView>,
)
    ensures
        resolved(
            name,
            None,
            Some(
                LookupView {
                    udaf: Some(udaf),
                    window_function: Some(window_function),
                    aggregate_function,
                },
            ),
            defaults,
        ) == Ok::<HandleView, ResolveErrorView>(found(FunctionSource::SessionUdaf, udaf)),
{
}

/// Inside a session the order is: user-defined aggregate function, window
/// function, aggregate function; and a session that holds the name at all
/// decides before the default set is asked.
pub proof fn lemma_session_order(name: Seq<char>, lookup: LookupView, defaults: Seq<EntryView>)
    ensures
        lookup.udaf matches Some(n) ==> resolved(name, None, Some(lookup), defaults) == Ok::<
            HandleView,
            ResolveErrorView,
        >(found(FunctionSource::SessionUdaf, n)),
        lookup.udaf is None ==> (lookup.window_function matches Some(n) ==> resolved(
            name,
            None,
            Some(lookup),
            defaults,
        ) == Ok::<HandleView, ResolveErrorView>(found(FunctionSource::SessionWindow, n))),
        lookup.udaf is None && lookup.window_function is None ==> (
        lookup.aggregate_function matches Some(n) ==> resolved(name, None, Some(lookup), defaults)
            == Ok::<HandleView, ResolveErrorView>(found(FunctionSource::SessionAggregate, n))),
{
}

/// Without a session, a name that is no built-in window function and that an
/// entry of the default set answers to, by canonical name or by alias,
/// resolves to a default aggregate function: the first such entry, under its
/// canonical name.
pub proof fn lemma_fallback_to_defaults(name: Seq<char>, defaults: Seq<EntryView>, k: int)
    requires
        0 <= k < defaults.len(),
        answers_to(defaults[k], name),
    ensures
        exists|i: int|
            is_first_answer(defaults, name, i) && resolved(name, None, None, defaults) == Ok::<
                HandleView,
                ResolveErrorView,
            >(found(FunctionSource::DefaultAggregate, defaults[i].name)),
{
    lemma_some_answer(defaults, name, k);
    let i = choose|i: int| is_first_answer(defaults, name, i);
    lemma_first_answer(defaults, name, i);
}

/// A name that only a session knows is not found when no session is
/// supplied, though the same name resolves when the session is: what a
/// session holds plays no part without it.
pub proof fn lemma_session_only_name(name: Seq<char>, lookup: LookupView, defaults: Seq<EntryView>)
    requires
        lookup.udaf is Some || lookup.window_function is Some || lookup.aggregate_function is Some,
        forall|j: int| 0 <= j < defaults.len() ==> !answers_to(#[trigger] defaults[j], name),
    ensures
        resolved(name, None, None, defaults) == Err::<HandleView, ResolveErrorView>(
            ResolveErrorView::NotFound { name },
        ),
        resolved(name, None, Some(lookup), defaults) is Ok,
{
    lemma_no_answer(defaults, name);
}

/// A name that no place knows fails, and the error carries that very name,
/// with or without a session.
pub proof fn lemma_total_miss(name: Seq<char>, with_session: bool, defaults: Seq<EntryView>)
    requires
        forall|j: int| 0 <= j < defaults.len() ==> !answers_to(#[trigger] defaults[j], name),
    ensures
        resolved(
            name,
            None,
            if with_session {
                Some(LookupView { udaf: None, window_function: None, aggregate_function: None })
            } else {
                None
            },
            defaults,
        ) == Err::<HandleView, ResolveErrorView>(ResolveErrorView::NotFound { name }),
{
    lemma_no_answer(defaults, name);
}

} // verus!
