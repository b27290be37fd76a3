use ehrmantraut::bindings::{
    escape_json_text, lower_internal, parse_internal, parse_language, wrap_result_json,
};
use ehrmantraut::ir::IrNode;
use ehrmantraut::parser::Language;

#[test]
fn language_names() {
    assert_eq!(parse_language("javascript"), Ok(Language::JavaScript));
    assert_eq!(parse_language("js"), Ok(Language::JavaScript));
    assert_eq!(parse_language("typescript"), Ok(Language::TypeScript));
    assert_eq!(parse_language("ts"), Ok(Language::TypeScript));
    assert_eq!(parse_language("tsx"), Ok(Language::Tsx));
    assert_eq!(parse_language("python"), Err("unsupported language: python".to_string()));
    assert_eq!(parse_language("JS"), Err("unsupported language: JS".to_string()));
    assert_eq!(parse_language(""), Err("unsupported language: ".to_string()));
}

#[test]
fn parse_internal_by_name() {
    let cst = parse_internal("let x = 1;", "js").unwrap();
    assert_eq!(cst.kind, "program");
    assert!(matches!(parse_internal("let x = 1;", "rust"), Err(m) if m == "unsupported language: rust"));
}

#[test]
fn lower_internal_by_name() {
    let ir = lower_internal("const x = 1;", "typescript").unwrap();
    assert_eq!(ir.body.len(), 1);
    assert!(matches!(&ir.body[0], IrNode::VariableDecl(v) if v.name == "x"));
    assert!(matches!(lower_internal("x", "go"), Err(m) if m == "unsupported language: go"));
}

#[test]
fn escaping_for_json() {
    assert_eq!(escape_json_text("plain"), "plain");
    assert_eq!(escape_json_text(""), "");
    assert_eq!(escape_json_text("say \"hi\""), "say \\\"hi\\\"");
    assert_eq!(escape_json_text("a\\b"), "a\\\\b");
    assert_eq!(escape_json_text("\\\""), "\\\\\\\"");
    assert_eq!(escape_json_text("ünï\"cödé"), "ünï\\\"cödé");
}

#[test]
fn result_envelopes() {
    assert_eq!(
        wrap_result_json(Ok("{\"kind\":\"program\"}".to_string())),
        "{\"success\":true,\"result\":{\"kind\":\"program\"}}"
    );
    assert_eq!(
        wrap_result_json(Err("GenericFailure, unsupported language: \"x\"".to_string())),
        "{\"success\":false,\"error\":\"GenericFailure, unsupported language: \\\"x\\\"\"}"
    );
    assert_eq!(wrap_result_json(Ok(String::new())), "{\"success\":true,\"result\":}");
}

#[test]
fn known_language_names_always_parse_and_lower() {
    for name in ["javascript", "js", "typescript", "ts", "tsx"] {
        assert!(parse_internal("let a = (", name).is_ok());
        assert!(lower_internal("}}} let", name).is_ok());
    }
}
