use std::sync::Arc;

use datafusion::arrow::datatypes::DataType;
use datafusion::execution::context::SessionContext;
use datafusion::functions_aggregate::sum::sum_udaf;
use datafusion_common::DataFusionError;
use datafusion_expr::function::AccumulatorArgs;
use datafusion_expr::{
    create_udaf, create_udwf, Accumulator, AggregateUDF, PartitionEvaluator, Volatility, WindowUDF,
};
use query_expr::expr::{FunctionHandle, FunctionSource};
use query_expr::resolver::{
    find_default, find_window_fn, resolve, FunctionEntry, ResolveError, SessionLookup,
};

fn handle(source: FunctionSource, name: &str) -> FunctionHandle {
    FunctionHandle { source, name: name.to_string() }
}

fn not_found(name: &str) -> ResolveError {
    ResolveError::NotFound { name: name.to_string() }
}

fn entry(name: &str, aliases: &[&str]) -> FunctionEntry {
    FunctionEntry { name: name.to_string(), aliases: aliases.iter().map(|a| a.to_string()).collect() }
}

fn no_accumulator(_: AccumulatorArgs) -> Result<Box<dyn Accumulator>, DataFusionError> {
    Err(DataFusionError::NotImplemented("never evaluated".to_string()))
}

fn no_evaluator() -> Result<Box<dyn PartitionEvaluator>, DataFusionError> {
    Err(DataFusionError::NotImplemented("never evaluated".to_string()))
}

fn user_aggregate(name: &str) -> AggregateUDF {
    create_udaf(
        name,
        vec![DataType::Int64],
        Arc::new(DataType::Int64),
        Volatility::Immutable,
        Arc::new(no_accumulator),
        Arc::new(vec![DataType::Int64]),
    )
}

fn user_window_function(name: &str) -> WindowUDF {
    create_udwf(
        name,
        DataType::Int64,
        Arc::new(DataType::Int64),
        Volatility::Immutable,
        Arc::new(no_evaluator),
    )
}

fn lookup(udaf: Option<&str>, window: Option<&str>, aggregate: Option<&str>) -> SessionLookup {
    SessionLookup {
        udaf: udaf.map(|n| n.to_string()),
        window_function: window.map(|n| n.to_string()),
        aggregate_function: aggregate.map(|n| n.to_string()),
    }
}

fn small_defaults() -> Vec<FunctionEntry> {
    vec![
        entry("first_value", &[]),
        entry("covar_samp", &["covar"]),
        entry("var", &["var_sample", "var_samp"]),
        entry("avg", &["mean"]),
    ]
}

#[test]
fn builtin_window_function_is_found_without_a_session() {
    assert_eq!(find_window_fn("rank", None), Ok(handle(FunctionSource::Builtin, "RANK")));
    assert_eq!(find_window_fn("row_number", None), Ok(handle(FunctionSource::Builtin, "ROW_NUMBER")));
    assert_eq!(find_window_fn("lag", None), Ok(handle(FunctionSource::Builtin, "LAG")));
}

#[test]
fn builtin_window_function_is_found_in_any_letter_case() {
    assert_eq!(find_window_fn("Dense_Rank", None), Ok(handle(FunctionSource::Builtin, "DENSE_RANK")));
    assert_eq!(find_window_fn("NTILE", None), Ok(handle(FunctionSource::Builtin, "NTILE")));
}

#[test]
fn builtin_aggregate_counts_as_builtin() {
    assert_eq!(find_window_fn("max", None), Ok(handle(FunctionSource::Builtin, "MAX")));
    assert_eq!(find_window_fn("array_agg", None), Ok(handle(FunctionSource::Builtin, "ARRAY_AGG")));
}

#[test]
fn builtin_wins_over_a_default_aggregate_of_the_same_name() {
    assert_eq!(
        find_window_fn("first_value", None),
        Ok(handle(FunctionSource::Builtin, "first_value"))
    );
}

#[test]
fn builtin_wins_over_a_session_udaf_of_the_same_name() {
    let ctx = SessionContext::new();
    ctx.register_udaf(user_aggregate("rank"));
    ctx.register_udaf(sum_udaf().as_ref().clone().with_aliases(["lead"]));
    assert_eq!(find_window_fn("rank", Some(&ctx)), Ok(handle(FunctionSource::Builtin, "RANK")));
    assert_eq!(find_window_fn("lead", Some(&ctx)), Ok(handle(FunctionSource::Builtin, "LEAD")));
}

#[test]
fn session_udaf_wins_over_a_window_function_of_the_same_name() {
    let ctx = SessionContext::new();
    ctx.register_udwf(user_window_function("shared"));
    ctx.register_udaf(user_aggregate("shared"));
    assert_eq!(
        find_window_fn("shared", Some(&ctx)),
        Ok(handle(FunctionSource::SessionUdaf, "shared"))
    );
}

#[test]
fn session_window_function_is_found_when_no_udaf_has_the_name() {
    let ctx = SessionContext::new();
    ctx.register_udwf(user_window_function("only_window"));
    assert_eq!(
        find_window_fn("only_window", Some(&ctx)),
        Ok(handle(FunctionSource::SessionWindow, "only_window"))
    );
}

#[test]
fn session_udaf_found_by_alias_is_known_by_its_own_name() {
    let ctx = SessionContext::new();
    ctx.register_udaf(user_aggregate("total").with_aliases(["tally"]));
    assert_eq!(
        find_window_fn("tally", Some(&ctx)),
        Ok(handle(FunctionSource::SessionUdaf, "total"))
    );
}

#[test]
fn default_aggregate_is_found_by_name_without_a_session() {
    assert_eq!(find_window_fn("avg", None), Ok(handle(FunctionSource::DefaultAggregate, "avg")));
    assert_eq!(find_window_fn("sum", None), Ok(handle(FunctionSource::DefaultAggregate, "sum")));
}

#[test]
fn default_aggregate_is_found_by_alias() {
    assert_eq!(find_window_fn("mean", None), Ok(handle(FunctionSource::DefaultAggregate, "avg")));
    assert_eq!(
        find_window_fn("covar", None),
        Ok(handle(FunctionSource::DefaultAggregate, "covar_samp"))
    );
    assert_eq!(find_window_fn("var_samp", None), Ok(handle(FunctionSource::DefaultAggregate, "var")));
}

#[test]
fn default_aggregate_is_matched_letter_for_letter() {
    assert_eq!(find_window_fn("AVG", None), Err(not_found("AVG")));
}

#[test]
fn a_name_that_only_a_session_knows_needs_the_session() {
    let ctx = SessionContext::new();
    ctx.register_udaf(user_aggregate("house_special"));
    assert_eq!(
        find_window_fn("house_special", Some(&ctx)),
        Ok(handle(FunctionSource::SessionUdaf, "house_special"))
    );
    assert_eq!(find_window_fn("house_special", None), Err(not_found("house_special")));
}

#[test]
fn unknown_name_is_not_found() {
    let ctx = SessionContext::new();
    assert_eq!(find_window_fn("no_such_function", None), Err(not_found("no_such_function")));
    assert_eq!(find_window_fn("no_such_function", Some(&ctx)), Err(not_found("no_such_function")));
    assert_eq!(find_window_fn("", None), Err(not_found("")));
}

#[test]
fn not_found_message_quotes_the_name() {
    let error = find_window_fn("no_such_function", None).unwrap_err();
    assert_eq!(error.message(), "window function `no_such_function` not found");
    assert_eq!(not_found("").message(), "window function `` not found");
}

#[test]
fn resolve_prefers_the_builtin() {
    let session = lookup(Some("u"), Some("w"), Some("a"));
    assert_eq!(
        resolve("rank", Some("RANK".to_string()), Some(session), &small_defaults()),
        Ok(handle(FunctionSource::Builtin, "RANK"))
    );
    assert_eq!(
        resolve("avg", Some("RANK".to_string()), None, &small_defaults()),
        Ok(handle(FunctionSource::Builtin, "RANK"))
    );
}

#[test]
fn resolve_asks_the_session_registries_in_order() {
    let defaults = small_defaults();
    assert_eq!(
        resolve("avg", None, Some(lookup(Some("u"), Some("w"), Some("a"))), &defaults),
        Ok(handle(FunctionSource::SessionUdaf, "u"))
    );
    assert_eq!(
        resolve("avg", None, Some(lookup(None, Some("w"), Some("a"))), &defaults),
        Ok(handle(FunctionSource::SessionWindow, "w"))
    );
    assert_eq!(
        resolve("avg", None, Some(lookup(None, None, Some("a"))), &defaults),
        Ok(handle(FunctionSource::SessionAggregate, "a"))
    );
    assert_eq!(
        resolve("avg", None, Some(lookup(None, None, None)), &defaults),
        Ok(handle(FunctionSource::DefaultAggregate, "avg"))
    );
}

#[test]
fn resolve_falls_back_to_the_defaults() {
    let defaults = small_defaults();
    assert_eq!(
        resolve("covar", None, None, &defaults),
        Ok(handle(FunctionSource::DefaultAggregate, "covar_samp"))
    );
    assert_eq!(
        resolve("var_samp", None, None, &defaults),
        Ok(handle(FunctionSource::DefaultAggregate, "var"))
    );
    assert_eq!(
        resolve("first_value", None, None, &defaults),
        Ok(handle(FunctionSource::DefaultAggregate, "first_value"))
    );
}

#[test]
fn resolve_takes_the_first_default_that_answers() {
    let defaults = vec![entry("one", &["both"]), entry("both", &[]), entry("two", &["both"])];
    assert_eq!(
        resolve("both", None, None, &defaults),
        Ok(handle(FunctionSource::DefaultAggregate, "one"))
    );
    assert_eq!(find_default("both", &defaults), Some(0));
    assert_eq!(find_default("two", &defaults), Some(2));
    assert_eq!(find_default("three", &defaults), None);
    assert_eq!(find_default("both", &vec![]), None);
}

#[test]
fn resolve_fails_with_the_name_when_nothing_answers() {
    assert_eq!(resolve("nothing", None, None, &small_defaults()), Err(not_found("nothing")));
    assert_eq!(
        resolve("nothing", None, Some(lookup(None, None, None)), &small_defaults()),
        Err(not_found("nothing"))
    );
    assert_eq!(resolve("Mean", None, None, &small_defaults()), Err(not_found("Mean")));
    assert_eq!(resolve("avg", None, None, &vec![]), Err(not_found("avg")));
}
