use visitor_bridge::error::TransformError;
use visitor_bridge::runtime::{
    settle_binding, settle_evaluation, ScriptRuntime, BIND_REFUSED_TEXT,
};

#[test]
fn program_yields_its_last_value_as_text() {
    let mut runtime = ScriptRuntime::new();
    assert_eq!(runtime.evaluate("'a' + 'b'"), Ok("ab".to_string()));
}

#[test]
fn values_that_are_no_strings_are_converted() {
    let mut runtime = ScriptRuntime::new();
    assert_eq!(runtime.evaluate("1 + 2"), Ok("3".to_string()));
    assert_eq!(runtime.evaluate("undefined"), Ok("undefined".to_string()));
    assert_eq!(runtime.evaluate("JSON.stringify(undefined)"), Ok("undefined".to_string()));
    assert_eq!(runtime.evaluate("null"), Ok("null".to_string()));
    assert_eq!(runtime.evaluate("true"), Ok("true".to_string()));
}

#[test]
fn bound_text_is_a_global_string() {
    let mut runtime = ScriptRuntime::new();
    assert_eq!(runtime.bind_global("ast", "{\"n\":41}"), Ok(()));
    assert_eq!(runtime.evaluate("typeof ast"), Ok("string".to_string()));
    assert_eq!(runtime.evaluate("ast"), Ok("{\"n\":41}".to_string()));
    assert_eq!(runtime.evaluate("String(JSON.parse(ast).n + 1)"), Ok("42".to_string()));
}

#[test]
fn binding_again_replaces_the_text() {
    let mut runtime = ScriptRuntime::new();
    assert_eq!(runtime.bind_global("ast", "one"), Ok(()));
    assert_eq!(runtime.bind_global("ast", "two"), Ok(()));
    assert_eq!(runtime.evaluate("ast"), Ok("two".to_string()));
}

#[test]
fn global_that_cannot_be_written_is_a_bind_error() {
    let mut runtime = ScriptRuntime::new();
    let bound = runtime.bind_global("undefined", "text");
    assert!(matches!(bound, Err(TransformError::RuntimeBindError(_))), "{:?}", bound);
}

#[test]
fn environments_share_nothing() {
    let mut first = ScriptRuntime::new();
    assert_eq!(first.bind_global("ast", "kept"), Ok(()));
    assert_eq!(first.evaluate("var leaked = 1; typeof leaked"), Ok("number".to_string()));
    let mut second = ScriptRuntime::new();
    assert_eq!(second.evaluate("typeof ast"), Ok("undefined".to_string()));
    assert_eq!(second.evaluate("typeof leaked"), Ok("undefined".to_string()));
}

#[test]
fn thrown_error_is_an_eval_error_with_its_message() {
    let mut runtime = ScriptRuntime::new();
    match runtime.evaluate("throw new Error('boom from script')") {
        Err(TransformError::RuntimeEvalError(report)) => {
            assert!(report.contains("boom from script"), "{}", report)
        }
        other => panic!("{:?}", other),
    }
}

#[test]
fn thrown_string_is_an_eval_error_with_the_string() {
    let mut runtime = ScriptRuntime::new();
    match runtime.evaluate("throw 'plain text'") {
        Err(TransformError::RuntimeEvalError(report)) => {
            assert!(report.contains("plain text"), "{}", report)
        }
        other => panic!("{:?}", other),
    }
}

#[test]
fn undefined_name_is_an_eval_error() {
    let mut runtime = ScriptRuntime::new();
    match runtime.evaluate("new NoSuchVisitor()") {
        Err(TransformError::RuntimeEvalError(report)) => {
            assert!(report.contains("NoSuchVisitor"), "{}", report)
        }
        other => panic!("{:?}", other),
    }
}

#[test]
fn text_that_is_no_program_is_an_eval_error() {
    let mut runtime = ScriptRuntime::new();
    let result = runtime.evaluate("class {");
    assert!(matches!(result, Err(TransformError::RuntimeEvalError(_))), "{:?}", result);
    let result = runtime.evaluate("import { Visitor } from \"@swc/core/Visitor\";");
    assert!(matches!(result, Err(TransformError::RuntimeEvalError(_))), "{:?}", result);
}

#[test]
fn conversion_that_throws_is_an_eval_error() {
    let mut runtime = ScriptRuntime::new();
    let result = runtime.evaluate("({ toString() { throw new Error('no text'); } })");
    assert!(matches!(result, Err(TransformError::RuntimeEvalError(_))), "{:?}", result);
}

#[test]
fn accepted_assignment_settles_as_done() {
    assert_eq!(settle_binding(Ok(true)), Ok(()));
}

#[test]
fn assignment_that_was_not_made_settles_as_a_bind_error() {
    assert_eq!(BIND_REFUSED_TEXT, "the global object refused the assignment");
    assert_eq!(
        settle_binding(Ok(false)),
        Err(TransformError::RuntimeBindError(
            "the global object refused the assignment".to_string()
        ))
    );
    assert_eq!(
        settle_binding(Ok(false)).unwrap_err().message(),
        "Failed to set AST into JS context, cannot perform transform the global object refused the assignment"
    );
}

#[test]
fn refused_assignment_settles_as_a_bind_error_with_the_report() {
    assert_eq!(
        settle_binding(Err("TypeError: cannot set non-writable property: undefined".to_string())),
        Err(TransformError::RuntimeBindError(
            "TypeError: cannot set non-writable property: undefined".to_string()
        ))
    );
    assert_eq!(
        settle_binding(Err(String::new())),
        Err(TransformError::RuntimeBindError(String::new()))
    );
}

#[test]
fn yielded_text_settles_as_that_text() {
    assert_eq!(settle_evaluation(Ok("{\"type\":\"Script\"}".to_string())), Ok("{\"type\":\"Script\"}".to_string()));
    assert_eq!(settle_evaluation(Ok(String::new())), Ok(String::new()));
}

#[test]
fn thrown_report_settles_as_an_eval_error_with_the_report() {
    assert_eq!(
        settle_evaluation(Err("Error: boom".to_string())),
        Err(TransformError::RuntimeEvalError("Error: boom".to_string()))
    );
}

#[test]
fn refused_global_reports_what_the_engine_threw() {
    let mut runtime = ScriptRuntime::new();
    match runtime.bind_global("NaN", "text") {
        Err(TransformError::RuntimeBindError(report)) => {
            assert!(report.contains("NaN"), "{}", report)
        }
        other => panic!("{:?}", other),
    }
}
