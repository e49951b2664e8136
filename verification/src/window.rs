//! Window calls: the frame that a call gets when its caller names none, and
//! how a call is put together once its function is resolved.

use crate::engine::builtin_window_function;
use crate::expr::{
    all_well_formed, views, well_formed, Expr, ExprView, FrameBound, FrameUnits, FunctionHandle,
    FunctionSource, HandleView, WindowFrame,
};
use crate::resolver::{
    find_window_fn, found, resolution, resolved, EntryView, LookupView, ResolveError,
    ResolveErrorView,
};
use datafusion::execution::context::SessionContext;
use vstd::prelude::*;

verus! {

/// The frame of a window call whose caller names none: rows, from the start
/// of the partition to the current row.
pub open spec fn default_frame() -> WindowFrame {
    WindowFrame {
        units: FrameUnits::Rows,
        start_bound: FrameBound::UnboundedPreceding,
        end_bound: FrameBound::CurrentRow,
    }
}

impl WindowFrame {
    /// The frame of `units` from `start_bound` to `end_bound`.
    pub fn new(units: FrameUnits, start_bound: FrameBound, end_bound: FrameBound) -> (r:
        WindowFrame)
        ensures
            r == (WindowFrame { units, start_bound, end_bound }),
    {
        WindowFrame { units, start_bound, end_bound }
    }
}

impl Default for WindowFrame {
    /// The frame of a window call whose caller names none.
    fn default() -> (r: WindowFrame)
        ensures
            r == default_frame(),
    {
        WindowFrame {
            units: FrameUnits::Rows,
            start_bound: FrameBound::UnboundedPreceding,
            end_bound: FrameBound::CurrentRow,
        }
    }
}

/// The list that stands for an optional list: the empty one where there is
/// none.
pub open spec fn list_or_empty(list: Option<Vec<Expr>>) -> Seq<ExprView> {
    match list {
        Some(items) => views(items@),
        None => Seq::empty(),
    }
}

/// The frame that stands for an optional frame: the default one where there
/// is none.
pub open spec fn frame_or_default(frame: Option<WindowFrame>) -> WindowFrame {
    match frame {
        Some(given) => given,
        None => default_frame(),
    }
}

/// The window call of `function` on `args`: the lists as the caller gave
/// them, neither sorted nor shortened, and no null treatment.
pub open spec fn window_node(
    function: HandleView,
    args: Seq<ExprView>,
    partition_by: Seq<ExprView>,
    order_by: Seq<ExprView>,
    frame: WindowFrame,
) -> ExprView {
    ExprView::WindowCall { function, args, partition_by, order_by, frame, null_treatment: None }
}

/// The list inside `list`, or a new empty list.
fn unwrap_list(list: Option<Vec<Expr>>) -> (r: Vec<Expr>)
    ensures
        views(r@) == list_or_empty(list),
{
    match list {
        Some(items) => items,
        None => {
            let r: Vec<Expr> = Vec::new();
            assert(views(r@) =~= Seq::<ExprView>::empty());
            r
        },
    }
}

/// Puts a window call together from its resolved function and its parts. A
/// missing partition or ordering list stands for the empty list, a missing
/// frame for the default one.
pub fn window_call(
    function: FunctionHandle,
    args: Vec<Expr>,
    partition_by: Option<Vec<Expr>>,
    order_by: Option<Vec<Expr>>,
    window_frame: Option<WindowFrame>,
) -> (r: Expr)
    ensures
        r@ == window_node(
            function@,
            views(args@),
            list_or_empty(partition_by),
            list_or_empty(order_by),
            frame_or_default(window_frame),
        ),
        window_frame is None ==> r@->frame == (WindowFrame {
            units: FrameUnits::Rows,
            start_bound: FrameBound::UnboundedPreceding,
            end_bound: FrameBound::CurrentRow,
        }),
        well_formed(r@) == (all_well_formed(views(args@)) && all_well_formed(
            list_or_empty(partition_by),
        ) && all_well_formed(list_or_empty(order_by))),
{
    let frame = match window_frame {
        Some(given) => given,
        None => WindowFrame::default(),
    };
    Expr::WindowCall {
        function,
        args,
        partition_by: unwrap_list(partition_by),
        order_by: unwrap_list(order_by),
        frame,
        null_treatment: None,
    }
}

/// The value of the outcome of building a window call by name.
pub open spec fn window_outcome(r: Result<Expr, ResolveError>) -> Result<
    ExprView,
    ResolveErrorView,
> {
    match r {
        Ok(node) => Ok(node@),
        Err(e) => Err(e@),
    }
}

/// The window call for the outcome of a resolution: the call of the function
/// that was found, or the error of the resolution.
pub open spec fn window_of(
    function: Result<HandleView, ResolveErrorView>,
    args: Seq<ExprView>,
    partition_by: Seq<ExprView>,
    order_by: Seq<ExprView>,
    frame: WindowFrame,
) -> Result<ExprView, ResolveErrorView> {
    match function {
        Ok(handle) => Ok(window_node(handle, args, partition_by, order_by, frame)),
        Err(e) => Err(e),
    }
}

/// The window call of the function that `name` resolves to, on `args`; the
/// session `ctx`, where there is one, is asked before the engine's default
/// aggregate functions. A name that resolves to nothing is an error that
/// carries the name.
///
/// What the session and the default set answer is theirs to say, so the
/// outcome is stated for whatever they answered. A name that the engine's
/// built-in window functions know is owed the call of the built-in function.
pub fn window(
    name: &str,
    args: Vec<Expr>,
    partition_by: Option<Vec<Expr>>,
    order_by: Option<Vec<Expr>>,
    window_frame: Option<WindowFrame>,
    ctx: Option<&SessionContext>,
) -> (r: Result<Expr, ResolveError>)
    ensures
        exists|session: Option<LookupView>, defaults: Seq<EntryView>|
            (session is Some <==> ctx is Some) && window_outcome(r) == #[trigger] window_of(
                resolved(name@, builtin_window_function(name@), session, defaults),
                views(args@),
                list_or_empty(partition_by),
                list_or_empty(order_by),
                frame_or_default(window_frame),
            ),
        builtin_window_function(name@) matches Some(canonical) ==> window_outcome(r) == Ok::<
            ExprView,
            ResolveErrorView,
        >(
            window_node(
                found(FunctionSource::Builtin, canonical),
                views(args@),
                list_or_empty(partition_by),
                list_or_empty(order_by),
                frame_or_default(window_frame),
            ),
        ),
        r matches Err(e) ==> e@ == (ResolveErrorView::NotFound { name: name@ }),
{
    let function = find_window_fn(name, ctx);
    let ghost (session, defaults) = choose|session: Option<LookupView>, defaults: Seq<EntryView>|
        (session is Some <==> ctx is Some) && resolution(function) == #[trigger] resolved(
            name@,
            builtin_window_function(name@),
            session,
            defaults,
        );
    let r = match function {
        Ok(handle) => Ok(window_call(handle, args, partition_by, order_by, window_frame)),
        Err(e) => Err(e),
    };
    assert(window_outcome(r) == window_of(
        resolved(name@, builtin_window_function(name@), session, defaults),
        views(args@),
        list_or_empty(partition_by),
        list_or_empty(order_by),
        frame_or_default(window_frame),
    ));
    r
}

} // verus!
