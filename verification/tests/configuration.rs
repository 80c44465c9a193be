use visitor_bridge::config::{
    build_transform_context, resolve_config, SourceRequest, TransformContext,
    TransformPluginConfig, DEFAULT_VISITOR_CLASS_NAME, TRANSFORM_ROOT,
};
use visitor_bridge::error::TransformError;

fn config(path: Option<&str>, name: Option<&str>) -> TransformPluginConfig {
    TransformPluginConfig {
        transform_impl_path: path.map(|text| text.to_string()),
        visitor_class_name: name.map(|text| text.to_string()),
    }
}

#[test]
fn default_config_sets_nothing() {
    assert_eq!(TransformPluginConfig::default(), config(None, None));
}

#[test]
fn fixed_names() {
    assert_eq!(DEFAULT_VISITOR_CLASS_NAME, "TransformVisitor");
    assert_eq!(TRANSFORM_ROOT, "/cwd");
}

#[test]
fn absent_payload_is_config_missing() {
    assert_eq!(resolve_config(None), Err(TransformError::ConfigMissing));
}

#[test]
fn refused_payload_is_config_malformed_with_the_report() {
    assert_eq!(
        resolve_config(Some(Err("expected value at line 1 column 1".to_string()))),
        Err(TransformError::ConfigMalformed("expected value at line 1 column 1".to_string()))
    );
}

#[test]
fn config_without_path_is_impl_path_missing() {
    assert_eq!(resolve_config(Some(Ok(config(None, None)))), Err(TransformError::ImplPathMissing));
    assert_eq!(
        resolve_config(Some(Ok(config(None, Some("MyVisitor"))))),
        Err(TransformError::ImplPathMissing)
    );
}

#[test]
fn config_with_path_asks_for_that_file_and_the_default_visitor() {
    assert_eq!(
        resolve_config(Some(Ok(config(Some("transform.js"), None)))),
        Ok(SourceRequest {
            impl_path: "transform.js".to_string(),
            visitor_class_name: "TransformVisitor".to_string(),
        })
    );
}

#[test]
fn config_with_visitor_name_asks_for_that_visitor() {
    assert_eq!(
        resolve_config(Some(Ok(config(Some("lib/t.js"), Some("MyVisitor"))))),
        Ok(SourceRequest {
            impl_path: "lib/t.js".to_string(),
            visitor_class_name: "MyVisitor".to_string(),
        })
    );
}

#[test]
fn read_failure_is_impl_read_error_with_the_report() {
    let request = SourceRequest {
        impl_path: "missing.js".to_string(),
        visitor_class_name: "TransformVisitor".to_string(),
    };
    assert_eq!(
        build_transform_context(request, Err("No such file or directory".to_string())),
        Err(TransformError::ImplReadError("No such file or directory".to_string()))
    );
}

#[test]
fn read_text_becomes_the_context() {
    let request = SourceRequest {
        impl_path: "t.js".to_string(),
        visitor_class_name: "MyVisitor".to_string(),
    };
    assert_eq!(
        build_transform_context(request, Ok("class MyVisitor {}".to_string())),
        Ok(TransformContext {
            transform_impl: "class MyVisitor {}".to_string(),
            transform_visitor_class_name: "MyVisitor".to_string(),
        })
    );
}

#[test]
fn empty_file_is_a_context_too() {
    let request = resolve_config(Some(Ok(config(Some(""), Some(""))))).unwrap();
    assert_eq!(request.impl_path, "");
    assert_eq!(request.visitor_class_name, "");
    assert_eq!(
        build_transform_context(request, Ok(String::new())),
        Ok(TransformContext {
            transform_impl: String::new(),
            transform_visitor_class_name: String::new(),
        })
    );
}
