use ehrmantraut::cst::CstNode;
use ehrmantraut::parser::{cst_node_from, parse, Language, ParseError};

fn find_kind<'a>(node: &'a CstNode, kind: &str) -> Option<&'a CstNode> {
    if node.kind == kind {
        return Some(node);
    }
    node.children.iter().find_map(|c| find_kind(c, kind))
}

fn check_leaves(node: &CstNode, source: &str) {
    if let Some(text) = &node.text {
        assert!(node.children.is_empty());
        let start = node.span.start.offset as usize;
        let end = node.span.end.offset as usize;
        assert_eq!(&source[start..end], text.as_str());
    }
    for c in &node.children {
        check_leaves(c, source);
    }
}

#[test]
fn parse_js_variable_declaration() {
    let cst = parse("let x = 1;", Language::JavaScript).unwrap();
    assert_eq!(cst.kind, "program");
    assert!(cst.children.iter().any(|c| c.kind == "lexical_declaration"));
}

#[test]
fn parse_ts_variable_declaration() {
    let cst = parse("let x: number = 1;", Language::TypeScript).unwrap();
    assert_eq!(cst.kind, "program");
    assert!(cst.children.iter().any(|c| c.kind == "lexical_declaration"));
}

#[test]
fn parse_tsx_jsx_element() {
    let cst = parse("const el = <div />;", Language::Tsx).unwrap();
    assert_eq!(cst.kind, "program");
}

#[test]
fn leaf_nodes_have_text() {
    let cst = parse("let x = 1;", Language::JavaScript).unwrap();
    let decl = &cst.children.iter().find(|c| c.named).unwrap();
    let ident = find_kind(decl, "identifier").unwrap();
    assert_eq!(ident.text.as_deref(), Some("x"));
    assert!(ident.children.is_empty());
}

#[test]
fn parse_root_has_no_field_name_and_spans_the_source() {
    let source = "let x = 1;\nfoo(x);";
    let cst = parse(source, Language::JavaScript).unwrap();
    assert!(cst.field_name.is_none());
    assert!(cst.named);
    assert_eq!(cst.span.start.offset, 0);
    assert_eq!(cst.span.end.offset as usize, source.len());
    assert_eq!(cst.span.end.line, 1);
    assert!(cst.text.is_none());
}

#[test]
fn parse_leaf_text_is_the_source_under_its_span() {
    let source = "const s = `a${b}c`; // ünïcödé\nif (x) { y(); }";
    let cst = parse(source, Language::JavaScript).unwrap();
    check_leaves(&cst, source);
}

#[test]
fn parse_records_field_names() {
    let cst = parse("let x = 1;", Language::JavaScript).unwrap();
    let declarator = find_kind(&cst, "variable_declarator").unwrap();
    let name = declarator.children.iter().find(|c| c.kind == "identifier").unwrap();
    assert_eq!(name.field_name.as_deref(), Some("name"));
    let value = declarator.children.iter().find(|c| c.kind == "number").unwrap();
    assert_eq!(value.field_name.as_deref(), Some("value"));
    assert_eq!(value.text.as_deref(), Some("1"));
}

#[test]
fn parse_unnamed_tokens_are_kept() {
    let cst = parse("let x = 1;", Language::JavaScript).unwrap();
    let decl = find_kind(&cst, "lexical_declaration").unwrap();
    let keyword = &decl.children[0];
    assert_eq!(keyword.kind, "let");
    assert!(!keyword.named);
    assert_eq!(keyword.text.as_deref(), Some("let"));
}

#[test]
fn parse_positions_count_lines_and_columns() {
    let cst = parse("a;\n  b;", Language::JavaScript).unwrap();
    let second = &cst.children[1];
    assert_eq!(second.kind, "expression_statement");
    assert_eq!(second.span.start.line, 1);
    assert_eq!(second.span.start.column, 2);
    assert_eq!(second.span.start.offset, 5);
}

#[test]
fn parse_error_messages() {
    assert_eq!(ParseError::ParseFailed.message(), "parse failed");
    assert_eq!(
        ParseError::LanguageSetup("bad version".to_string()).message(),
        "language setup error: bad version"
    );
}

#[test]
fn cst_node_from_reported_values() {
    let source = "let é = 1;";
    let leaf = cst_node_from("identifier", true, (0, 4), 4, (0, 6), 6, 0, Vec::new(), source, Some("name"));
    assert_eq!(leaf.kind, "identifier");
    assert!(leaf.named);
    assert_eq!(leaf.text.as_deref(), Some("é"));
    assert_eq!(leaf.field_name.as_deref(), Some("name"));
    assert_eq!(leaf.span.start.offset, 4);
    assert_eq!(leaf.span.end.column, 6);
    // An offset inside the two bytes of `é` is no valid slice.
    let split = cst_node_from("identifier", true, (0, 4), 5, (0, 6), 6, 0, Vec::new(), source, None);
    assert!(split.text.is_none());
    assert!(split.field_name.is_none());
    let parent = cst_node_from("program", true, (0, 0), 0, (usize::MAX, 10), 10, 1, vec![leaf], source, None);
    assert!(parent.text.is_none());
    assert_eq!(parent.children.len(), 1);
    assert_eq!(parent.span.end.line, u32::MAX);
}
