use datafusion::functions_aggregate::all_default_aggregate_functions;
use query_expr::aggregate::{
    approx_distinct, approx_median, approx_percentile_cont, approx_percentile_cont_with_weight,
    array_agg, avg, bit_and, bit_or, bit_xor, bool_and, bool_or, corr, count, count_star, covar,
    covar_pop, covar_samp, first_value, grouping, last_value, max, mean, median, min, regr_avgx,
    regr_avgy, regr_count, regr_intercept, regr_r2, regr_slope, regr_sxx, regr_sxy, regr_syy,
    stddev, stddev_pop, sum, var, var_pop, var_samp,
};
use query_expr::constructors::{col, order_by};
use query_expr::expr::{Expr, FunctionHandle, FunctionSource, NullTreatment, ScalarValue};
use query_expr::modifiers::BuildError;

fn call(name: &str, args: Vec<Expr>, distinct: bool) -> Expr {
    Expr::AggregateCall {
        function: FunctionHandle { source: FunctionSource::DefaultAggregate, name: name.to_string() },
        args,
        distinct,
        filter: None,
        order_by: None,
        null_treatment: None,
    }
}

fn builtin(name: &str, args: Vec<Expr>, distinct: bool) -> Expr {
    Expr::AggregateCall {
        function: FunctionHandle { source: FunctionSource::Builtin, name: name.to_string() },
        args,
        distinct,
        filter: None,
        order_by: None,
        null_treatment: None,
    }
}

fn decorated(
    name: &str,
    distinct: bool,
    filter: Option<Expr>,
    order: Option<Vec<Expr>>,
    nulls: Option<NullTreatment>,
) -> Expr {
    Expr::AggregateCall {
        function: FunctionHandle { source: FunctionSource::DefaultAggregate, name: name.to_string() },
        args: vec![col("x")],
        distinct,
        filter: filter.map(Box::new),
        order_by: order,
        null_treatment: nulls,
    }
}

fn key(name: &str) -> Expr {
    order_by(col(name), true, false)
}

#[test]
fn calls_without_a_distinct_flag() {
    assert_eq!(approx_distinct(col("x")), call("approx_distinct", vec![col("x")], false));
    assert_eq!(sum(col("x")), call("sum", vec![col("x")], false));
    assert_eq!(median(col("x")), call("median", vec![col("x")], false));
    assert_eq!(covar_samp(col("y"), col("x")), call("covar_samp", vec![col("y"), col("x")], false));
    assert_eq!(covar_pop(col("y"), col("x")), call("covar_pop", vec![col("y"), col("x")], false));
    assert_eq!(var_samp(col("x")), call("var", vec![col("x")], false));
}

#[test]
fn calls_of_one_argument_plain_and_distinct() {
    assert_eq!(approx_median(col("x"), false), Ok(call("approx_median", vec![col("x")], false)));
    assert_eq!(approx_median(col("x"), true), Ok(call("approx_median", vec![col("x")], true)));
    assert_eq!(avg(col("x"), false), Ok(call("avg", vec![col("x")], false)));
    assert_eq!(avg(col("x"), true), Ok(call("avg", vec![col("x")], true)));
    assert_eq!(bit_and(col("x"), true), Ok(call("bit_and", vec![col("x")], true)));
    assert_eq!(bit_or(col("x"), false), Ok(call("bit_or", vec![col("x")], false)));
    assert_eq!(bit_xor(col("x"), true), Ok(call("bit_xor", vec![col("x")], true)));
    assert_eq!(bool_and(col("x"), false), Ok(call("bool_and", vec![col("x")], false)));
    assert_eq!(bool_or(col("x"), true), Ok(call("bool_or", vec![col("x")], true)));
    assert_eq!(grouping(col("x"), false), Ok(call("grouping", vec![col("x")], false)));
    assert_eq!(stddev(col("x"), true), Ok(call("stddev", vec![col("x")], true)));
    assert_eq!(stddev_pop(col("x"), false), Ok(call("stddev_pop", vec![col("x")], false)));
    assert_eq!(var_pop(col("x"), true), Ok(call("var_pop", vec![col("x")], true)));
    assert_eq!(count(col("x"), false), Ok(call("count", vec![col("x")], false)));
    assert_eq!(count(col("x"), true), Ok(call("count", vec![col("x")], true)));
}

#[test]
fn calls_of_two_arguments_keep_y_before_x() {
    let args = || vec![col("y"), col("x")];
    assert_eq!(corr(col("y"), col("x"), false), Ok(call("corr", args(), false)));
    assert_eq!(corr(col("y"), col("x"), true), Ok(call("corr", args(), true)));
    assert_eq!(regr_avgx(col("y"), col("x"), false), Ok(call("regr_avgx", args(), false)));
    assert_eq!(regr_avgy(col("y"), col("x"), true), Ok(call("regr_avgy", args(), true)));
    assert_eq!(regr_count(col("y"), col("x"), false), Ok(call("regr_count", args(), false)));
    assert_eq!(regr_intercept(col("y"), col("x"), true), Ok(call("regr_intercept", args(), true)));
    assert_eq!(regr_r2(col("y"), col("x"), false), Ok(call("regr_r2", args(), false)));
    assert_eq!(regr_slope(col("y"), col("x"), true), Ok(call("regr_slope", args(), true)));
    assert_eq!(regr_sxx(col("y"), col("x"), false), Ok(call("regr_sxx", args(), false)));
    assert_eq!(regr_sxy(col("y"), col("x"), true), Ok(call("regr_sxy", args(), true)));
    assert_eq!(regr_syy(col("y"), col("x"), false), Ok(call("regr_syy", args(), false)));
}

#[test]
fn percentile_calls_keep_their_argument_order() {
    assert_eq!(
        approx_percentile_cont(col("x"), col("p"), false),
        Ok(call("approx_percentile_cont", vec![col("x"), col("p")], false))
    );
    assert_eq!(
        approx_percentile_cont(col("x"), col("p"), true),
        Ok(call("approx_percentile_cont", vec![col("x"), col("p")], true))
    );
    assert_eq!(
        approx_percentile_cont_with_weight(col("x"), col("w"), col("p"), false),
        Ok(call("approx_percentile_cont_with_weight", vec![col("x"), col("w"), col("p")], false))
    );
    assert_eq!(
        approx_percentile_cont_with_weight(col("x"), col("w"), col("p"), true),
        Ok(call("approx_percentile_cont_with_weight", vec![col("x"), col("w"), col("p")], true))
    );
}

#[test]
fn mean_is_avg() {
    assert_eq!(mean(col("x"), true), avg(col("x"), true));
    assert_eq!(mean(col("x"), false), avg(col("x"), false));
    assert_eq!(mean(col("x"), true), Ok(call("avg", vec![col("x")], true)));
}

#[test]
fn covar_is_covar_samp() {
    assert_eq!(covar(col("y"), col("x")), covar_samp(col("y"), col("x")));
}

#[test]
fn var_is_var_samp() {
    assert_eq!(var(col("x")), var_samp(col("x")));
}

#[test]
fn count_star_counts_the_literal_one() {
    assert_eq!(
        count_star(),
        call("count", vec![Expr::Literal { value: ScalarValue::Int32(Some(1)) }], false)
    );
}

#[test]
fn built_in_aggregates_carry_the_engine_names() {
    assert_eq!(max(vec![col("x")], false), builtin("MAX", vec![col("x")], false));
    assert_eq!(min(vec![col("x")], true), builtin("MIN", vec![col("x")], true));
    assert_eq!(array_agg(vec![col("x")], false), builtin("ARRAY_AGG", vec![col("x")], false));
}

#[test]
fn first_value_without_clauses_is_the_plain_call() {
    assert_eq!(
        first_value(col("x"), false, None, None, None),
        Ok(call("first_value", vec![col("x")], false))
    );
}

#[test]
fn first_value_carries_every_clause_asked_for() {
    assert_eq!(
        first_value(
            col("x"),
            true,
            Some(col("f")),
            Some(vec![key("a"), key("b")]),
            Some(NullTreatment::IgnoreNulls)
        ),
        Ok(decorated(
            "first_value",
            true,
            Some(col("f")),
            Some(vec![key("a"), key("b")]),
            Some(NullTreatment::IgnoreNulls)
        ))
    );
}

#[test]
fn last_value_carries_every_clause_asked_for() {
    assert_eq!(
        last_value(
            col("x"),
            true,
            Some(col("f")),
            Some(vec![key("a")]),
            Some(NullTreatment::RespectNulls)
        ),
        Ok(decorated(
            "last_value",
            true,
            Some(col("f")),
            Some(vec![key("a")]),
            Some(NullTreatment::RespectNulls)
        ))
    );
}

#[test]
fn first_and_last_value_differ_in_the_function_only() {
    let first = first_value(col("x"), true, Some(col("f")), Some(vec![key("a")]), None).unwrap();
    let last = last_value(col("x"), true, Some(col("f")), Some(vec![key("a")]), None).unwrap();
    assert_eq!(first, decorated("first_value", true, Some(col("f")), Some(vec![key("a")]), None));
    assert_eq!(last, decorated("last_value", true, Some(col("f")), Some(vec![key("a")]), None));
}

#[test]
fn an_empty_ordering_list_leaves_no_list() {
    assert_eq!(
        last_value(col("x"), false, None, Some(vec![]), None),
        Ok(call("last_value", vec![col("x")], false))
    );
    assert_eq!(
        first_value(col("x"), false, None, Some(vec![]), None),
        Ok(call("first_value", vec![col("x")], false))
    );
}

#[test]
fn an_ordering_entry_that_is_no_sort_key_is_refused() {
    assert_eq!(
        first_value(col("x"), true, Some(col("f")), Some(vec![key("a"), key("b"), col("c")]), None),
        Err(BuildError::NotSortKey { position: 2 })
    );
    assert_eq!(
        last_value(col("x"), false, None, Some(vec![col("c")]), Some(NullTreatment::IgnoreNulls)),
        Err(BuildError::NotSortKey { position: 0 })
    );
}

#[test]
fn the_engine_knows_every_default_aggregate_by_the_name_used_here() {
    let engine_names: Vec<String> =
        all_default_aggregate_functions().iter().map(|f| f.name().to_string()).collect();
    let x = || col("x");
    let built = vec![
        approx_distinct(x()),
        approx_median(x(), false).unwrap(),
        approx_percentile_cont(x(), x(), false).unwrap(),
        approx_percentile_cont_with_weight(x(), x(), x(), false).unwrap(),
        avg(x(), false).unwrap(),
        bit_and(x(), false).unwrap(),
        bit_or(x(), false).unwrap(),
        bit_xor(x(), false).unwrap(),
        bool_and(x(), false).unwrap(),
        bool_or(x(), false).unwrap(),
        corr(x(), x(), false).unwrap(),
        count(x(), false).unwrap(),
        covar_pop(x(), x()),
        covar_samp(x(), x()),
        first_value(x(), false, None, None, None).unwrap(),
        grouping(x(), false).unwrap(),
        last_value(x(), false, None, None, None).unwrap(),
        median(x()),
        regr_avgx(x(), x(), false).unwrap(),
        regr_avgy(x(), x(), false).unwrap(),
        regr_count(x(), x(), false).unwrap(),
        regr_intercept(x(), x(), false).unwrap(),
        regr_r2(x(), x(), false).unwrap(),
        regr_slope(x(), x(), false).unwrap(),
        regr_sxx(x(), x(), false).unwrap(),
        regr_sxy(x(), x(), false).unwrap(),
        regr_syy(x(), x(), false).unwrap(),
        stddev(x(), false).unwrap(),
        stddev_pop(x(), false).unwrap(),
        sum(x()),
        var_pop(x(), false).unwrap(),
        var_samp(x()),
    ];
    assert_eq!(built.len(), 32);
    for node in built {
        match node {
            Expr::AggregateCall { function, .. } => {
                assert_eq!(function.source, FunctionSource::DefaultAggregate);
                assert!(engine_names.contains(&function.name), "{}", function.name);
            }
            other => panic!("not an aggregate call: {:?}", other),
        }
    }
}
