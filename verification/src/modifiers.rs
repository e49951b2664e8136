//! The optional clauses of a call (DISTINCT, FILTER, ORDER BY, null
//! treatment) and the order in which they are attached.
//!
//! Attaching a clause consumes a node and gives a new one that keeps every
//! clause the node already had. The clauses are attached in one fixed order:
//! DISTINCT, FILTER, ORDER BY, null treatment.

use crate::expr::{
    all_well_formed, lemma_views, optional_view, views, well_formed, Expr, ExprView,
    NullTreatment,
};
use vstd::prelude::*;

verus! {

/// The kind of an optional clause.
#[derive(Clone, Copy, Debug, PartialEq, Eq, Structural)]
pub enum Clause {
    Distinct,
    Filter,
    OrderBy,
    NullTreatment,
}

/// Why a clause could not be attached.
#[derive(Clone, Copy, Debug, PartialEq, Eq, Structural)]
pub enum BuildError {
    /// The node is of a kind that cannot carry the clause.
    Unsupported { clause: Clause },
    /// The entry at `position` of the ordering list is not a sort key.
    NotSortKey { position: usize },
}

/// The value of a result of attaching a clause.
pub open spec fn built(r: Result<Expr, BuildError>) -> Result<ExprView, BuildError> {
    match r {
        Ok(node) => Ok(node@),
        Err(e) => Err(e),
    }
}

/// The value of an optional ordering list.
pub open spec fn keys_view(order_by: Option<Vec<Expr>>) -> Option<Seq<ExprView>> {
    match order_by {
        Some(keys) => Some(views(keys@)),
        None => None,
    }
}

/// DISTINCT on `node`: an aggregate call becomes distinct and keeps its other
/// clauses; no other node can carry the clause.
pub open spec fn distinct_of(node: ExprView) -> Result<ExprView, BuildError> {
    match node {
        ExprView::AggregateCall { function, args, distinct, filter, order_by, null_treatment } => {
            Ok(
                ExprView::AggregateCall {
                    function,
                    args,
                    distinct: true,
                    filter,
                    order_by,
                    null_treatment,
                },
            )
        },
        _ => Err(BuildError::Unsupported { clause: Clause::Distinct }),
    }
}

/// FILTER on `node`: an aggregate call takes `condition` as its filter and
/// keeps its other clauses; no other node can carry the clause.
pub open spec fn filtered(node: ExprView, condition: ExprView) -> Result<ExprView, BuildError> {
    match node {
        ExprView::AggregateCall { function, args, distinct, filter, order_by, null_treatment } => {
            Ok(
                ExprView::AggregateCall {
                    function,
                    args,
                    distinct,
                    filter: Some(Box::new(condition)),
                    order_by,
                    null_treatment,
                },
            )
        },
        _ => Err(BuildError::Unsupported { clause: Clause::Filter }),
    }
}

/// Every entry of `keys` is a sort key.
pub open spec fn all_sort_keys(keys: Seq<ExprView>) -> bool {
    forall|i: int| 0 <= i < keys.len() ==> (#[trigger] keys[i]) is Sort
}

/// `i` is the position of the first entry of `keys` that is not a sort key.
pub open spec fn is_first_non_sort_key(keys: Seq<ExprView>, i: int) -> bool {
    &&& 0 <= i < keys.len()
    &&& !(keys[i] is Sort)
    &&& forall|j: int| 0 <= j < i ==> (#[trigger] keys[j]) is Sort
}

/// The position of the first entry of `keys` that is not a sort key, where
/// there is one.
pub open spec fn first_non_sort_key(keys: Seq<ExprView>) -> int {
    choose|i: int| is_first_non_sort_key(keys, i)
}

/// The ordering that an aggregate call carries for the list `keys`: none at
/// all for the empty list.
pub open spec fn aggregate_ordering(keys: Seq<ExprView>) -> Option<Seq<ExprView>> {
    if keys.len() == 0 {
        None
    } else {
        Some(keys)
    }
}

/// ORDER BY on `node`: an aggregate or window call takes `keys` as its
/// ordering and keeps its other clauses, provided every entry is a sort key;
/// no other node can carry the clause.
pub open spec fn ordered(node: ExprView, keys: Seq<ExprView>) -> Result<ExprView, BuildError> {
    match node {
        ExprView::AggregateCall { function, args, distinct, filter, order_by, null_treatment } => {
            if all_sort_keys(keys) {
                Ok(
                    ExprView::AggregateCall {
                        function,
                        args,
                        distinct,
                        filter,
                        order_by: aggregate_ordering(keys),
                        null_treatment,
                    },
                )
            } else {
                Err(BuildError::NotSortKey { position: first_non_sort_key(keys) as usize })
            }
        },
        ExprView::WindowCall { function, args, partition_by, order_by, frame, null_treatment } => {
            if all_sort_keys(keys) {
                Ok(
                    ExprView::WindowCall {
                        function,
                        args,
                        partition_by,
                        order_by: keys,
                        frame,
                        null_treatment,
                    },
                )
            } else {
                Err(BuildError::NotSortKey { position: first_non_sort_key(keys) as usize })
            }
        },
        _ => Err(BuildError::Unsupported { clause: Clause::OrderBy }),
    }
}

/// Null treatment on `node`: an aggregate or window call takes `nulls` and
/// keeps its other clauses; no other node can carry the clause.
pub open spec fn null_treated(node: ExprView, nulls: NullTreatment) -> Result<
    ExprView,
    BuildError,
> {
    match node {
        ExprView::AggregateCall { function, args, distinct, filter, order_by, null_treatment } => {
            Ok(
                ExprView::AggregateCall {
                    function,
                    args,
                    distinct,
                    filter,
                    order_by,
                    null_treatment: Some(nulls),
                },
            )
        },
        ExprView::WindowCall { function, args, partition_by, order_by, frame, null_treatment } => {
            Ok(
                ExprView::WindowCall {
                    function,
                    args,
                    partition_by,
                    order_by,
                    frame,
                    null_treatment: Some(nulls),
                },
            )
        },
        _ => Err(BuildError::Unsupported { clause: Clause::NullTreatment }),
    }
}

/// The four steps in their fixed order, each one on the node that the steps
/// before it left; a step whose clause was not asked for leaves the node as it
/// is, and the first failure ends the chain.
pub open spec fn modified(
    base: ExprView,
    distinct: bool,
    filter: Option<ExprView>,
    order_by: Option<Seq<ExprView>>,
    null_treatment: Option<NullTreatment>,
) -> Result<ExprView, BuildError> {
    let after_distinct = if distinct {
        distinct_of(base)
    } else {
        Ok(base)
    };
    let after_filter = match (after_distinct, filter) {
        (Ok(node), Some(condition)) => filtered(node, condition),
        _ => after_distinct,
    };
    let after_order = match (after_filter, order_by) {
        (Ok(node), Some(keys)) => ordered(node, keys),
        _ => after_filter,
    };
    match (after_order, null_treatment) {
        (Ok(node), Some(nulls)) => null_treated(node, nulls),
        _ => after_order,
    }
}

/// One optional clause together with what it attaches.
pub ghost enum ClauseView {
    Distinct,
    Filter(ExprView),
    OrderBy(Seq<ExprView>),
    NullTreatment(NullTreatment),
}

/// `node` after the one clause `clause` was attached to it.
pub open spec fn attached(node: ExprView, clause: ClauseView) -> Result<ExprView, BuildError> {
    match clause {
        ClauseView::Distinct => distinct_of(node),
        ClauseView::Filter(condition) => filtered(node, condition),
        ClauseView::OrderBy(keys) => ordered(node, keys),
        ClauseView::NullTreatment(nulls) => null_treated(node, nulls),
    }
}

/// `node` after the clauses of `clauses` were attached to it one after the
/// other, from the first to the last; the first failure ends the chain.
pub open spec fn attached_in_turn(node: ExprView, clauses: Seq<ClauseView>) -> Result<
    ExprView,
    BuildError,
>
    decreases clauses.len(),
{
    if clauses.len() == 0 {
        Ok(node)
    } else {
        match attached(node, clauses[0]) {
            Ok(next) => attached_in_turn(next, clauses.drop_first()),
            Err(e) => Err(e),
        }
    }
}

/// Four clauses attached in turn are four steps, each on the result of the
/// step before.
proof fn lemma_four_in_turn(
    node: ExprView,
    first: ClauseView,
    second: ClauseView,
    third: ClauseView,
    fourth: ClauseView,
)
    ensures
        attached_in_turn(node, seq![first, second, third, fourth]) == match attached(node, first) {
            Ok(a) => match attached(a, second) {
                Ok(b) => match attached(b, third) {
                    Ok(c) => attached(c, fourth),
                    Err(e) => Err(e),
                },
                Err(e) => Err(e),
            },
            Err(e) => Err(e),
        },
{
    let all = seq![first, second, third, fourth];
    assert(all.drop_first() =~= seq![second, third, fourth]);
    assert(seq![second, third, fourth].drop_first() =~= seq![third, fourth]);
    assert(seq![third, fourth].drop_first() =~= seq![fourth]);
    assert(seq![fourth].drop_first() =~= Seq::<ClauseView>::empty());
    reveal_with_fuel(attached_in_turn, 5);
}

/// The order in which a caller names the four clauses does not show in the
/// node that is built: attaching DISTINCT, a filter, an ordering and a null
/// treatment one after the other, in whatever order, either gives the very
/// node that the fixed order gives, or fails where the fixed order fails.
pub proof fn lemma_clause_order_is_irrelevant(
    base: ExprView,
    condition: ExprView,
    keys: Seq<ExprView>,
    nulls: NullTreatment,
    clauses: Seq<ClauseView>,
)
    requires
        clauses.len() == 4,
        clauses.contains(ClauseView::Distinct),
        clauses.contains(ClauseView::Filter(condition)),
        clauses.contains(ClauseView::OrderBy(keys)),
        clauses.contains(ClauseView::NullTreatment(nulls)),
    ensures
        match modified(base, true, Some(condition), Some(keys), Some(nulls)) {
            Ok(node) => attached_in_turn(base, clauses) == Ok::<ExprView, BuildError>(node),
            Err(_) => attached_in_turn(base, clauses) is Err,
        },
{
    let first = clauses[0];
    let second = clauses[1];
    let third = clauses[2];
    let fourth = clauses[3];
    assert(clauses =~= seq![first, second, third, fourth]);
    lemma_four_in_turn(base, first, second, third, fourth);
}

/// Attaches DISTINCT to `node`.
pub fn with_distinct(node: Expr) -> (r: Result<Expr, BuildError>)
    ensures
        built(r) == distinct_of(node@),
        r matches Ok(n) ==> well_formed(n@) == well_formed(node@),
{
    match node {
        Expr::AggregateCall { function, args, distinct, filter, order_by, null_treatment } => Ok(
            Expr::AggregateCall { function, args, distinct: true, filter, order_by, null_treatment },
        ),
        _ => Err(BuildError::Unsupported { clause: Clause::Distinct }),
    }
}

/// Attaches `FILTER filter` to `node`.
pub fn with_filter(node: Expr, filter: Expr) -> (r: Result<Expr, BuildError>)
    ensures
        built(r) == filtered(node@, filter@),
        r matches Ok(n) ==> (well_formed(node@) && well_formed(filter@) ==> well_formed(n@)),
{
    match node {
        Expr::AggregateCall { function, args, distinct, filter: _, order_by, null_treatment } => Ok(
            Expr::AggregateCall {
                function,
                args,
                distinct,
                filter: Some(Box::new(filter)),
                order_by,
                null_treatment,
            },
        ),
        _ => Err(BuildError::Unsupported { clause: Clause::Filter }),
    }
}

/// Whether `e` is a sort key.
pub fn is_sort_key(e: &Expr) -> (r: bool)
    ensures
        r == (e@ is Sort),
{
    match e {
        Expr::Sort { .. } => true,
        _ => false,
    }
}

/// The position of the first entry of `keys` that is not a sort key, if any.
pub fn find_non_sort_key(keys: &Vec<Expr>) -> (r: Option<usize>)
    ensures
        match r {
            Some(i) => is_first_non_sort_key(views(keys@), i as int),
            None => all_sort_keys(views(keys@)),
        },
{
    proof {
        lemma_views(keys@);
    }
    let mut i: usize = 0;
    while i < keys.len()
        invariant
            i <= keys.len(),
            views(keys@).len() == keys@.len(),
            forall|j: int| 0 <= j < keys@.len() ==> #[trigger] views(keys@)[j] == keys@[j]@,
            forall|j: int| 0 <= j < i ==> (#[trigger] views(keys@)[j]) is Sort,
        decreases keys.len() - i,
    {
        if !is_sort_key(&keys[i]) {
            return Some(i);
        }
        i = i + 1;
    }
    None
}

/// The first entry that is not a sort key is at one position only.
pub proof fn lemma_first_non_sort_key(keys: Seq<ExprView>, i: int)
    requires
        is_first_non_sort_key(keys, i),
    ensures
        !all_sort_keys(keys),
        first_non_sort_key(keys) == i,
{
    let chosen = first_non_sort_key(keys);
    assert(is_first_non_sort_key(keys, chosen));
    if chosen < i {
        assert(keys[chosen] is Sort);
    }
    if i < chosen {
        assert(keys[i] is Sort);
    }
}

/// Attaches `ORDER BY order_by` to `node`. The list keeps its order.
pub fn with_order_by(node: Expr, order_by: Vec<Expr>) -> (r: Result<Expr, BuildError>)
    ensures
        built(r) == ordered(node@, views(order_by@)),
        r matches Ok(n) ==> (well_formed(node@) && all_well_formed(views(order_by@))
            ==> well_formed(n@)),
{
    match node {
        Expr::AggregateCall { function, args, distinct, filter, order_by: _, null_treatment } => {
            match find_non_sort_key(&order_by) {
                Some(position) => {
                    proof {
                        lemma_first_non_sort_key(views(order_by@), position as int);
                    }
                    Err(BuildError::NotSortKey { position })
                },
                None => {
                    proof {
                        lemma_views(order_by@);
                    }
                    let keys = if order_by.len() == 0 {
                        None
                    } else {
                        Some(order_by)
                    };
                    Ok(
                        Expr::AggregateCall {
                            function,
                            args,
                            distinct,
                            filter,
                            order_by: keys,
                            null_treatment,
                        },
                    )
                },
            }
        },
        Expr::WindowCall { function, args, partition_by, order_by: _, frame, null_treatment } => {
            match find_non_sort_key(&order_by) {
                Some(position) => {
                    proof {
                        lemma_first_non_sort_key(views(order_by@), position as int);
                    }
                    Err(BuildError::NotSortKey { position })
                },
                None => Ok(
                    Expr::WindowCall {
                        function,
                        args,
                        partition_by,
                        order_by,
                        frame,
                        null_treatment,
                    },
                ),
            }
        },
        _ => Err(BuildError::Unsupported { clause: Clause::OrderBy }),
    }
}

/// Attaches the null treatment `null_treatment` to `node`.
pub fn with_null_treatment(node: Expr, null_treatment: NullTreatment) -> (r: Result<
    Expr,
    BuildError,
>)
    ensures
        built(r) == null_treated(node@, null_treatment),
        r matches Ok(n) ==> well_formed(n@) == well_formed(node@),
{
    match node {
        Expr::AggregateCall { function, args, distinct, filter, order_by, null_treatment: _ } => Ok(
            Expr::AggregateCall {
                function,
                args,
                distinct,
                filter,
                order_by,
                null_treatment: Some(null_treatment),
            },
        ),
        Expr::WindowCall { function, args, partition_by, order_by, frame, null_treatment: _ } => Ok(
            Expr::WindowCall {
                function,
                args,
                partition_by,
                order_by,
                frame,
                null_treatment: Some(null_treatment),
            },
        ),
        _ => Err(BuildError::Unsupported { clause: Clause::NullTreatment }),
    }
}

/// Attaches to `base` the clauses that were asked for, in the fixed order:
/// DISTINCT, FILTER, ORDER BY, null treatment. The first clause that cannot
/// be attached ends the work with its error.
pub fn apply_modifiers(
    base: Expr,
    distinct: bool,
    filter: Option<Expr>,
    order_by: Option<Vec<Expr>>,
    null_treatment: Option<NullTreatment>,
) -> (r: Result<Expr, BuildError>)
    ensures
        built(r) == modified(
            base@,
            distinct,
            optional_view(filter),
            keys_view(order_by),
            null_treatment,
        ),
{
    let node = if distinct {
        match with_distinct(base) {
            Ok(n) => n,
            Err(e) => {
                return Err(e);
            },
        }
    } else {
        base
    };
    let node = match filter {
        Some(condition) => match with_filter(node, condition) {
            Ok(n) => n,
            Err(e) => {
                return Err(e);
            },
        },
        None => node,
    };
    let node = match order_by {
        Some(keys) => match with_order_by(node, keys) {
            Ok(n) => n,
            Err(e) => {
                return Err(e);
            },
        },
        None => node,
    };
    match null_treatment {
        Some(nulls) => with_null_treatment(node, nulls),
        None => Ok(node),
    }
}

} // verus!
