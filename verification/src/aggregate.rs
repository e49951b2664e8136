//! The aggregate calls. Each entry point builds the call of one of the
//! engine's default aggregate functions, which it names by the function's
//! canonical name, and attaches the clauses that were asked for.

use crate::constructors::{one, three, two};
use crate::expr::{
    all_well_formed, optional_view, views, well_formed, Expr, ExprView, FunctionHandle,
    FunctionSource, HandleView, NullTreatment, ScalarValue, ScalarView,
};
use crate::modifiers::{
    aggregate_ordering, all_sort_keys, apply_modifiers, built, first_non_sort_key, keys_view,
    modified, with_distinct, BuildError,
};
use vstd::prelude::*;

verus! {

/// The handle of the default aggregate function whose canonical name is
/// `name`.
pub open spec fn default_aggregate(name: Seq<char>) -> HandleView {
    HandleView { source: FunctionSource::DefaultAggregate, name }
}

/// The handle of the built-in aggregate function that the engine calls
/// `name`.
pub open spec fn builtin_aggregate(name: Seq<char>) -> HandleView {
    HandleView { source: FunctionSource::Builtin, name }
}

/// The call of `function` on `args`, distinct or not, without any other
/// clause.
pub open spec fn aggregate(function: HandleView, args: Seq<ExprView>, distinct: bool) -> ExprView {
    ExprView::AggregateCall {
        function,
        args,
        distinct,
        filter: None,
        order_by: None,
        null_treatment: None,
    }
}

/// The call of the default aggregate function `name` on `args`.
pub open spec fn call_of(name: Seq<char>, args: Seq<ExprView>, distinct: bool) -> ExprView {
    aggregate(default_aggregate(name), args, distinct)
}

/// The node that [`avg`] gives.
pub open spec fn avg_call(expression: ExprView, distinct: bool) -> ExprView {
    call_of("avg"@, seq![expression], distinct)
}

/// The node that [`mean`] gives.
pub open spec fn mean_call(expression: ExprView, distinct: bool) -> ExprView {
    call_of("avg"@, seq![expression], distinct)
}

/// The node that [`covar_samp`] gives.
pub open spec fn covar_samp_call(y: ExprView, x: ExprView) -> ExprView {
    call_of("covar_samp"@, seq![y, x], false)
}

/// The node that [`covar`] gives.
pub open spec fn covar_call(y: ExprView, x: ExprView) -> ExprView {
    call_of("covar_samp"@, seq![y, x], false)
}

/// The node that [`var_samp`] gives.
pub open spec fn var_samp_call(expression: ExprView) -> ExprView {
    call_of("var"@, seq![expression], false)
}

/// The node that [`var`] gives.
pub open spec fn var_call(expression: ExprView) -> ExprView {
    call_of("var"@, seq![expression], false)
}

/// An alias gives the node that its canonical entry point gives, the same
/// function and the same flags: `mean` that of `avg`, `covar` that of
/// `covar_samp`, `var` that of `var_samp`.
pub proof fn lemma_aggregate_aliases(x: ExprView, y: ExprView, distinct: bool)
    ensures
        mean_call(x, distinct) == avg_call(x, distinct),
        covar_call(y, x) == covar_samp_call(y, x),
        var_call(x) == var_samp_call(x),
{
}

/// The plain call of the default aggregate function `name` on `args`.
fn plain(name: &str, args: Vec<Expr>) -> (r: Expr)
    ensures
        r@ == call_of(name@, views(args@), false),
        well_formed(r@) == all_well_formed(views(args@)),
{
    Expr::AggregateCall {
        function: FunctionHandle { source: FunctionSource::DefaultAggregate, name: name.to_owned() },
        args,
        distinct: false,
        filter: None,
        order_by: None,
        null_treatment: None,
    }
}

/// The call of the default aggregate function `name` on `args`, made distinct
/// where `distinct` asks for it.
fn plain_or_distinct(name: &str, args: Vec<Expr>, distinct: bool) -> (r: Result<Expr, BuildError>)
    ensures
        built(r) == Ok::<ExprView, BuildError>(call_of(name@, views(args@), distinct)),
        r matches Ok(node) ==> well_formed(node@) == all_well_formed(views(args@)),
{
    let call = plain(name, args);
    if distinct {
        with_distinct(call)
    } else {
        Ok(call)
    }
}

/// The approximate number of distinct values of `expression`.
pub fn approx_distinct(expression: Expr) -> (r: Expr)
    ensures
        r@ == call_of("approx_distinct"@, seq![expression@], false),
        well_formed(r@) == all_well_formed(seq![expression@]),
{
    plain("approx_distinct", one(expression))
}

/// The approximate `percentile` of `expression`.
pub fn approx_percentile_cont(expression: Expr, percentile: Expr, distinct: bool) -> (r: Result<
    Expr,
    BuildError,
>)
    ensures
        built(r) == Ok::<ExprView, BuildError>(
            call_of("approx_percentile_cont"@, seq![expression@, percentile@], distinct),
        ),
        r matches Ok(node) ==> well_formed(node@) == all_well_formed(
            seq![expression@, percentile@],
        ),
{
    plain_or_distinct("approx_percentile_cont", two(expression, percentile), distinct)
}

/// The approximate `percentile` of `expression`, each value counted with its
/// `weight`.
pub fn approx_percentile_cont_with_weight(
    expression: Expr,
    weight: Expr,
    percentile: Expr,
    distinct: bool,
) -> (r: Result<Expr, BuildError>)
    ensures
        built(r) == Ok::<ExprView, BuildError>(
            call_of(
                "approx_percentile_cont_with_weight"@,
                seq![expression@, weight@, percentile@],
                distinct,
            ),
        ),
        r matches Ok(node) ==> well_formed(node@) == all_well_formed(
            seq![expression@, weight@, percentile@],
        ),
{
    plain_or_distinct(
        "approx_percentile_cont_with_weight",
        three(expression, weight, percentile),
        distinct,
    )
}

/// The approximate median of `expression`.
pub fn approx_median(expression: Expr, distinct: bool) -> (r: Result<Expr, BuildError>)
    ensures
        built(r) == Ok::<ExprView, BuildError>(call_of("approx_median"@, seq![expression@], distinct)),
        r matches Ok(node) ==> well_formed(node@) == all_well_formed(seq![expression@]),
{
    plain_or_distinct("approx_median", one(expression), distinct)
}

/// The average of `expression`.
pub fn avg(expression: Expr, distinct: bool) -> (r: Result<Expr, BuildError>)
    ensures
        built(r) == Ok::<ExprView, BuildError>(avg_call(expression@, distinct)),
        r matches Ok(node) ==> well_formed(node@) == all_well_formed(seq![expression@]),
{
    plain_or_distinct("avg", one(expression), distinct)
}

/// The bitwise AND of all values of `expr_x`.
pub fn bit_and(expr_x: Expr, distinct: bool) -> (r: Result<Expr, BuildError>)
    ensures
        built(r) == Ok::<ExprView, BuildError>(call_of("bit_and"@, seq![expr_x@], distinct)),
        r matches Ok(node) ==> well_formed(node@) == all_well_formed(seq![expr_x@]),
{
    plain_or_distinct("bit_and", one(expr_x), distinct)
}

/// The bitwise OR of all values of `expression`.
pub fn bit_or(expression: Expr, distinct: bool) -> (r: Result<Expr, BuildError>)
    ensures
        built(r) == Ok::<ExprView, BuildError>(call_of("bit_or"@, seq![expression@], distinct)),
        r matches Ok(node) ==> well_formed(node@) == all_well_formed(seq![expression@]),
{
    plain_or_distinct("bit_or", one(expression), distinct)
}

/// The bitwise XOR of all values of `expression`.
pub fn bit_xor(expression: Expr, distinct: bool) -> (r: Result<Expr, BuildError>)
    ensures
        built(r) == Ok::<ExprView, BuildError>(call_of("bit_xor"@, seq![expression@], distinct)),
        r matches Ok(node) ==> well_formed(node@) == all_well_formed(seq![expression@]),
{
    plain_or_distinct("bit_xor", one(expression), distinct)
}

/// Whether every value of `expression` is true.
pub fn bool_and(expression: Expr, distinct: bool) -> (r: Result<Expr, BuildError>)
    ensures
        built(r) == Ok::<ExprView, BuildError>(call_of("bool_and"@, seq![expression@], distinct)),
        r matches Ok(node) ==> well_formed(node@) == all_well_formed(seq![expression@]),
{
    plain_or_distinct("bool_and", one(expression), distinct)
}

/// Whether some value of `expression` is true.
pub fn bool_or(expression: Expr, distinct: bool) -> (r: Result<Expr, BuildError>)
    ensures
        built(r) == Ok::<ExprView, BuildError>(call_of("bool_or"@, seq![expression@], distinct)),
        r matches Ok(node) ==> well_formed(node@) == all_well_formed(seq![expression@]),
{
    plain_or_distinct("bool_or", one(expression), distinct)
}

/// Whether `expression` is aggregated away in the current grouping set.
pub fn grouping(expression: Expr, distinct: bool) -> (r: Result<Expr, BuildError>)
    ensures
        built(r) == Ok::<ExprView, BuildError>(call_of("grouping"@, seq![expression@], distinct)),
        r matches Ok(node) ==> well_formed(node@) == all_well_formed(seq![expression@]),
{
    plain_or_distinct("grouping", one(expression), distinct)
}

/// The sample standard deviation of `expression`.
pub fn stddev(expression: Expr, distinct: bool) -> (r: Result<Expr, BuildError>)
    ensures
        built(r) == Ok::<ExprView, BuildError>(call_of("stddev"@, seq![expression@], distinct)),
        r matches Ok(node) ==> well_formed(node@) == all_well_formed(seq![expression@]),
{
    plain_or_distinct("stddev", one(expression), distinct)
}

/// The population standard deviation of `expression`.
pub fn stddev_pop(expression: Expr, distinct: bool) -> (r: Result<Expr, BuildError>)
    ensures
        built(r) == Ok::<ExprView, BuildError>(call_of("stddev_pop"@, seq![expression@], distinct)),
        r matches Ok(node) ==> well_formed(node@) == all_well_formed(seq![expression@]),
{
    plain_or_distinct("stddev_pop", one(expression), distinct)
}

/// The population variance of `expression`.
pub fn var_pop(expression: Expr, distinct: bool) -> (r: Result<Expr, BuildError>)
    ensures
        built(r) == Ok::<ExprView, BuildError>(call_of("var_pop"@, seq![expression@], distinct)),
        r matches Ok(node) ==> well_formed(node@) == all_well_formed(seq![expression@]),
{
    plain_or_distinct("var_pop", one(expression), distinct)
}

/// The number of values of `expr` that are not null.
pub fn count(expr: Expr, distinct: bool) -> (r: Result<Expr, BuildError>)
    ensures
        built(r) == Ok::<ExprView, BuildError>(call_of("count"@, seq![expr@], distinct)),
        r matches Ok(node) ==> well_formed(node@) == all_well_formed(seq![expr@]),
{
    plain_or_distinct("count", one(expr), distinct)
}

/// The correlation of `y` and `x`.
pub fn corr(y: Expr, x: Expr, distinct: bool) -> (r: Result<Expr, BuildError>)
    ensures
        built(r) == Ok::<ExprView, BuildError>(call_of("corr"@, seq![y@, x@], distinct)),
        r matches Ok(node) ==> well_formed(node@) == all_well_formed(seq![y@, x@]),
{
    plain_or_distinct("corr", two(y, x), distinct)
}

/// The average of `expr_x` over the pairs without a null.
pub fn regr_avgx(expr_y: Expr, expr_x: Expr, distinct: bool) -> (r: Result<Expr, BuildError>)
    ensures
        built(r) == Ok::<ExprView, BuildError>(call_of("regr_avgx"@, seq![expr_y@, expr_x@], distinct)),
        r matches Ok(node) ==> well_formed(node@) == all_well_formed(seq![expr_y@, expr_x@]),
{
    plain_or_distinct("regr_avgx", two(expr_y, expr_x), distinct)
}

/// The average of `expr_y` over the pairs without a null.
pub fn regr_avgy(expr_y: Expr, expr_x: Expr, distinct: bool) -> (r: Result<Expr, BuildError>)
    ensures
        built(r) == Ok::<ExprView, BuildError>(call_of("regr_avgy"@, seq![expr_y@, expr_x@], distinct)),
        r matches Ok(node) ==> well_formed(node@) == all_well_formed(seq![expr_y@, expr_x@]),
{
    plain_or_distinct("regr_avgy", two(expr_y, expr_x), distinct)
}

/// The number of pairs without a null.
pub fn regr_count(expr_y: Expr, expr_x: Expr, distinct: bool) -> (r: Result<Expr, BuildError>)
    ensures
        built(r) == Ok::<ExprView, BuildError>(call_of("regr_count"@, seq![expr_y@, expr_x@], distinct)),
        r matches Ok(node) ==> well_formed(node@) == all_well_formed(seq![expr_y@, expr_x@]),
{
    plain_or_distinct("regr_count", two(expr_y, expr_x), distinct)
}

/// The intercept of the least-squares line through the pairs.
pub fn regr_intercept(expr_y: Expr, expr_x: Expr, distinct: bool) -> (r: Result<Expr, BuildError>)
    ensures
        built(r) == Ok::<ExprView, BuildError>(call_of("regr_intercept"@, seq![expr_y@, expr_x@], distinct)),
        r matches Ok(node) ==> well_formed(node@) == all_well_formed(seq![expr_y@, expr_x@]),
{
    plain_or_distinct("regr_intercept", two(expr_y, expr_x), distinct)
}

/// The square of the correlation of the pairs.
pub fn regr_r2(expr_y: Expr, expr_x: Expr, distinct: bool) -> (r: Result<Expr, BuildError>)
    ensures
        built(r) == Ok::<ExprView, BuildError>(call_of("regr_r2"@, seq![expr_y@, expr_x@], distinct)),
        r matches Ok(node) ==> well_formed(node@) == all_well_formed(seq![expr_y@, expr_x@]),
{
    plain_or_distinct("regr_r2", two(expr_y, expr_x), distinct)
}

/// The slope of the least-squares line through the pairs.
pub fn regr_slope(expr_y: Expr, expr_x: Expr, distinct: bool) -> (r: Result<Expr, BuildError>)
    ensures
        built(r) == Ok::<ExprView, BuildError>(call_of("regr_slope"@, seq![expr_y@, expr_x@], distinct)),
        r matches Ok(node) ==> well_formed(node@) == all_well_formed(seq![expr_y@, expr_x@]),
{
    plain_or_distinct("regr_slope", two(expr_y, expr_x), distinct)
}

/// The sum of squares of `expr_x` about its mean.
pub fn regr_sxx(expr_y: Expr, expr_x: Expr, distinct: bool) -> (r: Result<Expr, BuildError>)
    ensures
        built(r) == Ok::<ExprView, BuildError>(call_of("regr_sxx"@, seq![expr_y@, expr_x@], distinct)),
        r matches Ok(node) ==> well_formed(node@) == all_well_formed(seq![expr_y@, expr_x@]),
{
    plain_or_distinct("regr_sxx", two(expr_y, expr_x), distinct)
}

/// The sum of products of `expr_y` and `expr_x` about their means.
pub fn regr_sxy(expr_y: Expr, expr_x: Expr, distinct: bool) -> (r: Result<Expr, BuildError>)
    ensures
        built(r) == Ok::<ExprView, BuildError>(call_of("regr_sxy"@, seq![expr_y@, expr_x@], distinct)),
        r matches Ok(node) ==> well_formed(node@) == all_well_formed(seq![expr_y@, expr_x@]),
{
    plain_or_distinct("regr_sxy", two(expr_y, expr_x), distinct)
}

/// The sum of squares of `expr_y` about its mean.
pub fn regr_syy(expr_y: Expr, expr_x: Expr, distinct: bool) -> (r: Result<Expr, BuildError>)
    ensures
        built(r) == Ok::<ExprView, BuildError>(call_of("regr_syy"@, seq![expr_y@, expr_x@], distinct)),
        r matches Ok(node) ==> well_formed(node@) == all_well_formed(seq![expr_y@, expr_x@]),
{
    plain_or_distinct("regr_syy", two(expr_y, expr_x), distinct)
}

/// Another name of [`avg`].
pub fn mean(expression: Expr, distinct: bool) -> (r: Result<Expr, BuildError>)
    ensures
        built(r) == Ok::<ExprView, BuildError>(mean_call(expression@, distinct)),
        r matches Ok(node) ==> well_formed(node@) == all_well_formed(seq![expression@]),
{
    avg(expression, distinct)
}

/// The sum of `args`.
pub fn sum(args: Expr) -> (r: Expr)
    ensures
        r@ == call_of("sum"@, seq![args@], false),
        well_formed(r@) == all_well_formed(seq![args@]),
{
    plain("sum", one(args))
}

/// The sample covariance of `y` and `x`.
pub fn covar_samp(y: Expr, x: Expr) -> (r: Expr)
    ensures
        r@ == covar_samp_call(y@, x@),
        well_formed(r@) == all_well_formed(seq![y@, x@]),
{
    plain("covar_samp", two(y, x))
}

/// The population covariance of `y` and `x`.
pub fn covar_pop(y: Expr, x: Expr) -> (r: Expr)
    ensures
        r@ == call_of("covar_pop"@, seq![y@, x@], false),
        well_formed(r@) == all_well_formed(seq![y@, x@]),
{
    plain("covar_pop", two(y, x))
}

/// The median of `arg`.
pub fn median(arg: Expr) -> (r: Expr)
    ensures
        r@ == call_of("median"@, seq![arg@], false),
        well_formed(r@) == all_well_formed(seq![arg@]),
{
    plain("median", one(arg))
}

/// Another name of [`covar_samp`].
pub fn covar(y: Expr, x: Expr) -> (r: Expr)
    ensures
        r@ == covar_call(y@, x@),
        well_formed(r@) == all_well_formed(seq![y@, x@]),
{
    covar_samp(y, x)
}

/// The sample variance of `expression`. The engine's canonical name of the
/// function is `var`.
pub fn var_samp(expression: Expr) -> (r: Expr)
    ensures
        r@ == var_samp_call(expression@),
        well_formed(r@) == all_well_formed(seq![expression@]),
{
    plain("var", one(expression))
}

/// Another name of [`var_samp`].
pub fn var(y: Expr) -> (r: Expr)
    ensures
        r@ == var_call(y@),
        well_formed(r@) == all_well_formed(seq![y@]),
{
    var_samp(y)
}

/// `COUNT(1)`: the number of rows.
pub fn count_star() -> (r: Expr)
    ensures
        r@ == call_of(
            "count"@,
            seq![ExprView::Literal { value: ScalarView::Int32(Some(1i32)) }],
            false,
        ),
        well_formed(r@),
{
    plain("count", one(Expr::Literal { value: ScalarValue::Int32(Some(1i32)) }))
}

/// The call of the engine's built-in aggregate function `name` on `args`.
fn builtin(name: &str, args: Vec<Expr>, distinct: bool) -> (r: Expr)
    ensures
        r@ == aggregate(builtin_aggregate(name@), views(args@), distinct),
        well_formed(r@) == all_well_formed(views(args@)),
{
    Expr::AggregateCall {
        function: FunctionHandle { source: FunctionSource::Builtin, name: name.to_owned() },
        args,
        distinct,
        filter: None,
        order_by: None,
        null_treatment: None,
    }
}

/// The values of `args` gathered into an array.
pub fn array_agg(args: Vec<Expr>, distinct: bool) -> (r: Expr)
    ensures
        r@ == aggregate(builtin_aggregate("ARRAY_AGG"@), views(args@), distinct),
        well_formed(r@) == all_well_formed(views(args@)),
{
    builtin("ARRAY_AGG", args, distinct)
}

/// The largest value of `args`.
pub fn max(args: Vec<Expr>, distinct: bool) -> (r: Expr)
    ensures
        r@ == aggregate(builtin_aggregate("MAX"@), views(args@), distinct),
        well_formed(r@) == all_well_formed(views(args@)),
{
    builtin("MAX", args, distinct)
}

/// The smallest value of `args`.
pub fn min(args: Vec<Expr>, distinct: bool) -> (r: Expr)
    ensures
        r@ == aggregate(builtin_aggregate("MIN"@), views(args@), distinct),
        well_formed(r@) == all_well_formed(views(args@)),
{
    builtin("MIN", args, distinct)
}

/// The call of the default aggregate function `name` on `args` with the
/// clauses that were asked for: all of them on one node, the ordering list
/// dropped where it is empty. An ordering list with an entry that is not a
/// sort key is refused, with the position of the first such entry.
pub open spec fn decorated(
    name: Seq<char>,
    args: Seq<ExprView>,
    distinct: bool,
    filter: Option<ExprView>,
    order_by: Option<Seq<ExprView>>,
    null_treatment: Option<NullTreatment>,
) -> Result<ExprView, BuildError> {
    let ordering = match order_by {
        Some(keys) => keys,
        None => Seq::empty(),
    };
    if all_sort_keys(ordering) {
        Ok(
            ExprView::AggregateCall {
                function: default_aggregate(name),
                args,
                distinct,
                filter: match filter {
                    Some(condition) => Some(Box::new(condition)),
                    None => None,
                },
                order_by: aggregate_ordering(ordering),
                null_treatment,
            },
        )
    } else {
        Err(BuildError::NotSortKey { position: first_non_sort_key(ordering) as usize })
    }
}

/// On a plain aggregate call the four steps in their fixed order come to
/// [`decorated`].
pub proof fn lemma_modified_plain_call(
    name: Seq<char>,
    args: Seq<ExprView>,
    distinct: bool,
    filter: Option<ExprView>,
    order_by: Option<Seq<ExprView>>,
    null_treatment: Option<NullTreatment>,
)
    ensures
        modified(call_of(name, args, false), distinct, filter, order_by, null_treatment)
            == decorated(name, args, distinct, filter, order_by, null_treatment),
{
}

/// The arguments, the filter and the sort keys of a call are all well formed.
pub open spec fn parts_well_formed(
    args: Seq<ExprView>,
    filter: Option<ExprView>,
    order_by: Option<Seq<ExprView>>,
) -> bool {
    &&& all_well_formed(args)
    &&& filter matches Some(condition) ==> well_formed(condition)
    &&& order_by matches Some(keys) ==> all_well_formed(keys)
}

/// A call with clauses is well formed when its parts are: an empty ordering
/// list leaves no list behind.
pub proof fn lemma_decorated_well_formed(
    name: Seq<char>,
    args: Seq<ExprView>,
    distinct: bool,
    filter: Option<ExprView>,
    order_by: Option<Seq<ExprView>>,
    null_treatment: Option<NullTreatment>,
)
    requires
        parts_well_formed(args, filter, order_by),
    ensures
        decorated(name, args, distinct, filter, order_by, null_treatment) matches Ok(node)
            ==> well_formed(node),
{
}

/// The first value of `expr` in its group, with the clauses that were asked
/// for attached in the fixed order.
pub fn first_value(
    expr: Expr,
    distinct: bool,
    filter: Option<Expr>,
    order_by: Option<Vec<Expr>>,
    null_treatment: Option<NullTreatment>,
) -> (r: Result<Expr, BuildError>)
    ensures
        built(r) == decorated(
            "first_value"@,
            seq![expr@],
            distinct,
            optional_view(filter),
            keys_view(order_by),
            null_treatment,
        ),
        r matches Ok(node) ==> (parts_well_formed(
            seq![expr@],
            optional_view(filter),
            keys_view(order_by),
        ) ==> well_formed(node@)),
{
    proof {
        if parts_well_formed(seq![expr@], optional_view(filter), keys_view(order_by)) {
            lemma_decorated_well_formed(
                "first_value"@,
                seq![expr@],
                distinct,
                optional_view(filter),
                keys_view(order_by),
                null_treatment,
            );
        }
        lemma_modified_plain_call(
            "first_value"@,
            seq![expr@],
            distinct,
            optional_view(filter),
            keys_view(order_by),
            null_treatment,
        );
    }
    apply_modifiers(plain("first_value", one(expr)), distinct, filter, order_by, null_treatment)
}

/// The last value of `expr` in its group, with the clauses that were asked for
/// attached in the fixed order.
pub fn last_value(
    expr: Expr,
    distinct: bool,
    filter: Option<Expr>,
    order_by: Option<Vec<Expr>>,
    null_treatment: Option<NullTreatment>,
) -> (r: Result<Expr, BuildError>)
    ensures
        built(r) == decorated(
            "last_value"@,
            seq![expr@],
            distinct,
            optional_view(filter),
            keys_view(order_by),
            null_treatment,
        ),
        r matches Ok(node) ==> (parts_well_formed(
            seq![expr@],
            optional_view(filter),
            keys_view(order_by),
        ) ==> well_formed(node@)),
{
    proof {
        if parts_well_formed(seq![expr@], optional_view(filter), keys_view(order_by)) {
            lemma_decorated_well_formed(
                "last_value"@,
                seq![expr@],
                distinct,
                optional_view(filter),
                keys_view(order_by),
                null_treatment,
            );
        }
        lemma_modified_plain_call(
            "last_value"@,
            seq![expr@],
            distinct,
            optional_view(filter),
            keys_view(order_by),
            null_treatment,
        );
    }
    apply_modifiers(plain("last_value", one(expr)), distinct, filter, order_by, null_treatment)
}

} // verus!
