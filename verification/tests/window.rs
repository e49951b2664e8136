use datafusion::execution::context::SessionContext;
use query_expr::constructors::{col, order_by};
use query_expr::expr::{
    Expr, FrameBound, FrameUnits, FunctionHandle, FunctionSource, WindowFrame,
};
use query_expr::resolver::ResolveError;
use query_expr::window::{window, window_call};

fn rank() -> FunctionHandle {
    FunctionHandle { source: FunctionSource::Builtin, name: "RANK".to_string() }
}

fn rows_to_current_row() -> WindowFrame {
    WindowFrame {
        units: FrameUnits::Rows,
        start_bound: FrameBound::UnboundedPreceding,
        end_bound: FrameBound::CurrentRow,
    }
}

fn key(name: &str) -> Expr {
    order_by(col(name), true, false)
}

#[test]
fn default_frame_is_rows_from_the_start_to_the_current_row() {
    assert_eq!(WindowFrame::default(), rows_to_current_row());
}

#[test]
fn frame_new_keeps_its_parts() {
    assert_eq!(
        WindowFrame::new(FrameUnits::Range, FrameBound::Preceding(2), FrameBound::Following(3)),
        WindowFrame {
            units: FrameUnits::Range,
            start_bound: FrameBound::Preceding(2),
            end_bound: FrameBound::Following(3),
        }
    );
}

#[test]
fn window_call_without_a_frame_gets_the_default_frame() {
    assert_eq!(
        window_call(rank(), vec![], None, None, None),
        Expr::WindowCall {
            function: rank(),
            args: vec![],
            partition_by: vec![],
            order_by: vec![],
            frame: rows_to_current_row(),
            null_treatment: None,
        }
    );
}

#[test]
fn window_call_keeps_a_given_frame() {
    let frame = WindowFrame {
        units: FrameUnits::Groups,
        start_bound: FrameBound::Preceding(1),
        end_bound: FrameBound::UnboundedFollowing,
    };
    match window_call(rank(), vec![], None, None, Some(frame)) {
        Expr::WindowCall { frame: kept, .. } => assert_eq!(kept, frame),
        other => panic!("not a window call: {:?}", other),
    }
}

#[test]
fn window_call_keeps_its_lists_as_given() {
    assert_eq!(
        window_call(
            rank(),
            vec![col("x"), col("y")],
            Some(vec![col("b"), col("a"), col("b")]),
            Some(vec![key("z"), key("y"), key("z")]),
            None
        ),
        Expr::WindowCall {
            function: rank(),
            args: vec![col("x"), col("y")],
            partition_by: vec![col("b"), col("a"), col("b")],
            order_by: vec![key("z"), key("y"), key("z")],
            frame: rows_to_current_row(),
            null_treatment: None,
        }
    );
}

#[test]
fn window_resolves_a_builtin_function() {
    assert_eq!(
        window("rank", vec![], Some(vec![col("p")]), Some(vec![key("o")]), None, None),
        Ok(Expr::WindowCall {
            function: rank(),
            args: vec![],
            partition_by: vec![col("p")],
            order_by: vec![key("o")],
            frame: rows_to_current_row(),
            null_treatment: None,
        })
    );
}

#[test]
fn window_resolves_a_default_aggregate_by_alias() {
    assert_eq!(
        window("mean", vec![col("x")], None, None, None, None),
        Ok(Expr::WindowCall {
            function: FunctionHandle {
                source: FunctionSource::DefaultAggregate,
                name: "avg".to_string()
            },
            args: vec![col("x")],
            partition_by: vec![],
            order_by: vec![],
            frame: rows_to_current_row(),
            null_treatment: None,
        })
    );
}

#[test]
fn window_asks_the_session_before_the_defaults() {
    let ctx = SessionContext::new();
    assert_eq!(
        window("avg", vec![col("x")], None, None, None, Some(&ctx)),
        Ok(Expr::WindowCall {
            function: FunctionHandle { source: FunctionSource::SessionUdaf, name: "avg".to_string() },
            args: vec![col("x")],
            partition_by: vec![],
            order_by: vec![],
            frame: rows_to_current_row(),
            null_treatment: None,
        })
    );
}

#[test]
fn window_fails_with_the_name_it_was_given() {
    assert_eq!(
        window("no_such_function", vec![col("x")], None, None, None, None),
        Err(ResolveError::NotFound { name: "no_such_function".to_string() })
    );
}
