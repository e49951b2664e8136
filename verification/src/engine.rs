//! The calls into the query engine. Nothing in this file is proved: each item
//! states what the engine's own source shows of the function it names, and
//! hands the answer on as plain values.

use crate::resolver::FunctionEntry;
use datafusion::execution::context::SessionContext;
use datafusion::execution::FunctionRegistry;
use datafusion::functions_aggregate::all_default_aggregate_functions;
use datafusion_expr::expr::find_df_window_func;
use vstd::prelude::*;

verus! {

/// The engine's session, `datafusion::execution::context::SessionContext`. It
/// owns the registries of the functions that its user has registered. Their
/// contents can change behind a shared reference, so no contract speaks of
/// them.
#[verifier::external_type_specification]
#[verifier::external_body]
pub struct ExSessionContext(SessionContext);

/// The canonical name of the engine's built-in window function that answers
/// to `name`, if there is one. This is what
/// `datafusion_expr::expr::find_df_window_func` finds for `name`, told by the
/// name that the function found reports of itself. The engine decides which
/// names belong to the set and how it folds letter case before it compares.
pub uninterp spec fn builtin_window_function(name: Seq<char>) -> Option<Seq<char>>;

/// Calls `datafusion_expr::expr::find_df_window_func`, whose answer depends on
/// the name alone, and hands back the name that the function found reports
/// of itself (`WindowFunctionDefinition::name`).
#[verifier::external_body]
pub(crate) fn find_builtin_window_function(name: &str) -> (r: Option<String>)
    ensures
        match r {
            Some(found) => builtin_window_function(name@) == Some(found@),
            None => builtin_window_function(name@) is None,
        },
{
    match find_df_window_func(name) {
        Some(function) => Some(function.name().to_string()),
        None => None,
    }
}

/// Calls `FunctionRegistry::udaf` on the session and hands back the name that
/// the aggregate function registered under `name` reports of itself, if there
/// is one. The answer depends on what has been registered, so nothing is
/// promised of it.
#[verifier::external_body]
pub(crate) fn session_udaf(ctx: &SessionContext, name: &str) -> (r: Option<String>) {
    match ctx.udaf(name) {
        Ok(function) => Some(function.name().to_string()),
        Err(_) => None,
    }
}

/// Takes a snapshot of the session (`SessionContext::state`), looks `name` up
/// in its window functions (`SessionState::window_functions`) and hands back
/// the name that the function found reports of itself, if there is one.
/// Nothing is promised of the answer.
#[verifier::external_body]
pub(crate) fn session_window_function(ctx: &SessionContext, name: &str) -> (r: Option<String>) {
    match ctx.state().window_functions().get(name) {
        Some(function) => Some(function.name().to_string()),
        None => None,
    }
}

/// Takes a snapshot of the session (`SessionContext::state`), looks `name` up
/// in its aggregate functions (`SessionState::aggregate_functions`) and hands
/// back the name that the function found reports of itself, if there is one.
/// Nothing is promised of the answer.
#[verifier::external_body]
pub(crate) fn session_aggregate_function(ctx: &SessionContext, name: &str) -> (r: Option<String>) {
    match ctx.state().aggregate_functions().get(name) {
        Some(function) => Some(function.name().to_string()),
        None => None,
    }
}

/// Calls `datafusion::functions_aggregate::all_default_aggregate_functions`
/// and hands back, in the engine's order, the name and the aliases of each
/// function. Which functions the engine lists is its own affair: nothing is
/// promised.
#[verifier::external_body]
pub(crate) fn default_aggregate_functions() -> (r: Vec<FunctionEntry>) {
    let mut entries = Vec::new();
    for function in all_default_aggregate_functions() {
        entries.push(
            FunctionEntry {
                name: function.name().to_string(),
                aliases: function.aliases().to_vec(),
            },
        );
    }
    entries
}

} // verus!
