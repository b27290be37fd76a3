use ehrmantraut::cst::CstNode;
use ehrmantraut::ir::{
    DeclKind, ForKind, IrExpr, IrModule, IrNode, LiteralValue, ScopeLevel,
};
use ehrmantraut::lower::{lower, JsLowerer, LowerError};
use ehrmantraut::parser::{parse, Language};
use ehrmantraut::source::{Position, Span};

fn lower_source(source: &str, language: Language) -> IrModule {
    let cst = parse(source, language).unwrap();
    lower(&cst, language, source).unwrap()
}

fn pos(offset: u32) -> Position {
    Position { line: 0, column: offset, offset }
}

fn span(start: u32, end: u32) -> Span {
    Span { start: pos(start), end: pos(end) }
}

fn leaf(kind: &str, named: bool, start: u32, text: &str) -> CstNode {
    CstNode {
        kind: kind.to_string(),
        named,
        span: span(start, start + text.len() as u32),
        text: Some(text.to_string()),
        children: Vec::new(),
        field_name: None,
    }
}

fn with_field(mut node: CstNode, field: &str) -> CstNode {
    node.field_name = Some(field.to_string());
    node
}

fn inner(kind: &str, start: u32, end: u32, children: Vec<CstNode>) -> CstNode {
    CstNode {
        kind: kind.to_string(),
        named: true,
        span: span(start, end),
        text: None,
        children,
        field_name: None,
    }
}

fn variable_decl(node: &IrNode) -> &ehrmantraut::ir::VariableDecl {
    match node {
        IrNode::VariableDecl(v) => v,
        other => panic!("expected a variable declaration, got {:?}", other),
    }
}

#[test]
fn var_is_function_scoped() {
    let m = lower_source("var x = 1;", Language::JavaScript);
    assert_eq!(m.body.len(), 1);
    let v = variable_decl(&m.body[0]);
    assert_eq!(v.name, "x");
    assert_eq!(v.annotations.scope_level, Some(ScopeLevel::Function));
    assert_eq!(v.annotations.declaration_kind, Some(DeclKind::Var));
    assert!(!v.annotations.is_export);
    match &v.value {
        Some(IrExpr::Literal(l)) => assert!(matches!(&l.value, LiteralValue::Number(n) if n == "1")),
        other => panic!("unexpected value {:?}", other),
    }
}

#[test]
fn let_and_const_are_block_scoped() {
    let m = lower_source("let a = 1; const b = 'two';", Language::JavaScript);
    assert_eq!(m.body.len(), 2);
    let a = variable_decl(&m.body[0]);
    assert_eq!(a.annotations.scope_level, Some(ScopeLevel::Block));
    assert_eq!(a.annotations.declaration_kind, Some(DeclKind::Let));
    let b = variable_decl(&m.body[1]);
    assert_eq!(b.annotations.scope_level, Some(ScopeLevel::Block));
    assert_eq!(b.annotations.declaration_kind, Some(DeclKind::Const));
    match &b.value {
        Some(IrExpr::Literal(l)) => assert!(matches!(&l.value, LiteralValue::String(s) if s == "two")),
        other => panic!("unexpected value {:?}", other),
    }
}

#[test]
fn one_declaration_per_declarator() {
    let m = lower_source("let a = 1, b, c = a;", Language::JavaScript);
    assert_eq!(m.body.len(), 3);
    let names: Vec<&str> = m.body.iter().map(|n| variable_decl(n).name.as_str()).collect();
    assert_eq!(names, vec!["a", "b", "c"]);
    assert!(variable_decl(&m.body[1]).value.is_none());
}

#[test]
fn exported_declarations_are_marked() {
    let m = lower_source("export const x = 1, y = 2;", Language::JavaScript);
    assert_eq!(m.body.len(), 2);
    for n in &m.body {
        let v = variable_decl(n);
        assert!(v.annotations.is_export);
        assert_eq!(v.annotations.declaration_kind, Some(DeclKind::Const));
    }
}

#[test]
fn source_order_is_kept() {
    let m = lower_source("console.log(x);\nvar x = 1;", Language::JavaScript);
    assert_eq!(m.body.len(), 2);
    assert!(matches!(&m.body[0], IrNode::ExpressionStatement(_)));
    assert!(matches!(&m.body[1], IrNode::VariableDecl(_)));
}

#[test]
fn single_statement_bodies_become_blocks() {
    let m = lower_source("if (x) return;", Language::JavaScript);
    assert_eq!(m.body.len(), 1);
    match &m.body[0] {
        IrNode::If(i) => {
            assert!(matches!(&i.condition, IrExpr::Identifier(id) if id.name == "x"));
            assert_eq!(i.consequent.body.len(), 1);
            assert!(matches!(&i.consequent.body[0], IrNode::Return(r) if r.value.is_none()));
            assert!(i.alternate.is_none());
        },
        other => panic!("expected an if statement, got {:?}", other),
    }
}

#[test]
fn template_literal_parts() {
    let m = lower_source("x = `a${b}c`;", Language::JavaScript);
    let e = match &m.body[0] {
        IrNode::ExpressionStatement(s) => &s.expression,
        other => panic!("unexpected {:?}", other),
    };
    let value = match e {
        IrExpr::Assignment(a) => &a.value,
        other => panic!("unexpected {:?}", other),
    };
    match &**value {
        IrExpr::TemplateLiteral(t) => {
            assert_eq!(t.quasis, vec!["a".to_string(), "c".to_string()]);
            assert_eq!(t.expressions.len(), 1);
            assert!(matches!(&t.expressions[0], IrExpr::Identifier(id) if id.name == "b"));
        },
        other => panic!("expected a template literal, got {:?}", other),
    }
}

#[test]
fn template_without_substitution_is_a_string() {
    let m = lower_source("x = `plain`;", Language::JavaScript);
    let e = match &m.body[0] {
        IrNode::ExpressionStatement(s) => &s.expression,
        other => panic!("unexpected {:?}", other),
    };
    match e {
        IrExpr::Assignment(a) => match &*a.value {
            IrExpr::Literal(l) => assert!(matches!(&l.value, LiteralValue::String(s) if s == "plain")),
            other => panic!("unexpected {:?}", other),
        },
        other => panic!("unexpected {:?}", other),
    }
}

#[test]
fn optional_chaining_is_flagged() {
    let m = lower_source("a?.b;", Language::JavaScript);
    match &m.body[0] {
        IrNode::ExpressionStatement(s) => match &s.expression {
            IrExpr::MemberAccess(ma) => {
                assert!(ma.optional);
                assert!(!ma.computed);
            },
            other => panic!("unexpected {:?}", other),
        },
        other => panic!("unexpected {:?}", other),
    }
    let m = lower_source("a.b;", Language::JavaScript);
    match &m.body[0] {
        IrNode::ExpressionStatement(s) => {
            assert!(matches!(&s.expression, IrExpr::MemberAccess(ma) if !ma.optional))
        },
        other => panic!("unexpected {:?}", other),
    }
}

#[test]
fn type_only_declarations_are_dropped_in_typescript() {
    let m = lower_source("type T = number;\ninterface I {}\nlet x: T = 1;", Language::TypeScript);
    assert_eq!(m.body.len(), 1);
    assert_eq!(variable_decl(&m.body[0]).name, "x");
}

#[test]
fn unknown_statements_stay_opaque() {
    let source = "with (o) {}";
    let m = lower_source(source, Language::JavaScript);
    assert_eq!(m.body.len(), 1);
    match &m.body[0] {
        IrNode::Opaque(o) => {
            assert_eq!(o.cst_kind, "with_statement");
            assert_eq!(o.text, source);
        },
        other => panic!("expected an opaque node, got {:?}", other),
    }
}

#[test]
fn for_of_and_for_in() {
    let m = lower_source("for (const x of xs) {}\nfor (k in o) {}", Language::JavaScript);
    let for_of = inner("for_of_statement", 0, 2, vec![]);
    let mut lowerer = JsLowerer::new(Language::JavaScript, "");
    assert!(matches!(lowerer.lower_for_in_statement(&for_of).unwrap(), IrNode::For(f) if f.annotations.kind == ForKind::Of));
    assert_eq!(m.body.len(), 2);
    assert!(matches!(&m.body[0], IrNode::For(f) if f.annotations.kind == ForKind::Of));
    assert!(matches!(&m.body[1], IrNode::For(f) if f.annotations.kind == ForKind::In));
}

#[test]
fn function_declarations_and_arrows() {
    let m = lower_source("async function f(a, b = 1) { return a; }\nconst g = () => 1;", Language::JavaScript);
    assert_eq!(m.body.len(), 2);
    match &m.body[0] {
        IrNode::FunctionDecl(f) => {
            assert_eq!(f.name.as_deref(), Some("f"));
            assert!(f.annotations.is_async);
            assert!(!f.is_arrow);
            assert_eq!(f.params.len(), 2);
            assert_eq!(f.params[0].name, "a");
            assert!(f.params[1].default_value.is_some());
            assert_eq!(f.body.body.len(), 1);
        },
        other => panic!("unexpected {:?}", other),
    }
    match &variable_decl(&m.body[1]).value {
        Some(IrExpr::FunctionExpr(f)) => assert!(f.is_arrow),
        other => panic!("unexpected {:?}", other),
    }
}

#[test]
fn imports_and_exports() {
    let m = lower_source(
        "import d, { a as b } from \"mod\";\nexport { b };\nexport default function h() {}",
        Language::JavaScript,
    );
    assert_eq!(m.body.len(), 3);
    match &m.body[0] {
        IrNode::ImportDecl(i) => {
            assert_eq!(i.source, "mod");
            assert_eq!(i.specifiers.len(), 2);
        },
        other => panic!("unexpected {:?}", other),
    }
    match &m.body[1] {
        IrNode::ExportDecl(e) => {
            assert_eq!(e.specifiers.len(), 1);
            assert_eq!(e.specifiers[0].local, "b");
            assert!(!e.is_default);
        },
        other => panic!("unexpected {:?}", other),
    }
    match &m.body[2] {
        IrNode::FunctionDecl(f) => {
            assert!(f.annotations.is_export);
            assert!(f.annotations.is_default);
        },
        other => panic!("unexpected {:?}", other),
    }
}

#[test]
fn lowering_hand_built_tree() {
    // `x = 1;` built by hand, with offsets into the source.
    let source = "x = 1;";
    let assignment = inner(
        "assignment_expression",
        0,
        5,
        vec![
            with_field(leaf("identifier", true, 0, "x"), "left"),
            leaf("=", false, 2, "="),
            with_field(leaf("number", true, 4, "1"), "right"),
        ],
    );
    let statement = inner("expression_statement", 0, 6, vec![assignment, leaf(";", false, 5, ";")]);
    let program = inner("program", 0, 6, vec![statement]);
    let m = lower(&program, Language::JavaScript, source).unwrap();
    assert_eq!(m.span, span(0, 6));
    assert_eq!(m.body.len(), 1);
    match &m.body[0] {
        IrNode::ExpressionStatement(s) => match &s.expression {
            IrExpr::Assignment(a) => {
                assert_eq!(a.operator, "=");
                assert!(matches!(&*a.target, IrExpr::Identifier(id) if id.name == "x"));
                assert!(matches!(&*a.value, IrExpr::Literal(_)));
            },
            other => panic!("unexpected {:?}", other),
        },
        other => panic!("unexpected {:?}", other),
    }
}

#[test]
fn unnamed_nodes_lower_to_nothing() {
    let mut lowerer = JsLowerer::new(Language::JavaScript, ";");
    let token = leaf(";", false, 0, ";");
    assert!(lowerer.lower_node(&token).unwrap().is_none());
}

#[test]
fn empty_declaration_has_one_unnamed_node() {
    let decl = inner("lexical_declaration", 0, 3, vec![leaf("let", false, 0, "let")]);
    let mut lowerer = JsLowerer::new(Language::JavaScript, "let");
    let nodes = lowerer.lower_variable_declaration(&decl).unwrap();
    assert_eq!(nodes.len(), 1);
    let v = variable_decl(&nodes[0]);
    assert_eq!(v.name, "");
    assert_eq!(v.span, span(0, 3));
    assert_eq!(v.annotations.declaration_kind, Some(DeclKind::Let));
}

#[test]
fn new_lowerer_keeps_language_and_source() {
    let l = JsLowerer::new(Language::Tsx, "abc");
    assert_eq!(l.language, Language::Tsx);
    assert_eq!(l.source, "abc");
}

#[test]
fn strip_quotes_removes_one_matching_pair() {
    assert_eq!(JsLowerer::strip_quotes("\"abc\"".to_string()), "abc");
    assert_eq!(JsLowerer::strip_quotes("'a'".to_string()), "a");
    assert_eq!(JsLowerer::strip_quotes("`t`".to_string()), "t");
    assert_eq!(JsLowerer::strip_quotes("\"\"".to_string()), "");
    assert_eq!(JsLowerer::strip_quotes("\"a'".to_string()), "\"a'");
    assert_eq!(JsLowerer::strip_quotes("\"".to_string()), "\"");
    assert_eq!(JsLowerer::strip_quotes("plain".to_string()), "plain");
    assert_eq!(JsLowerer::strip_quotes("\"ü\"".to_string()), "ü");
}

#[test]
fn ts_type_node_kinds() {
    assert!(JsLowerer::is_ts_type_node("type_annotation"));
    assert!(JsLowerer::is_ts_type_node("interface_declaration"));
    assert!(JsLowerer::is_ts_type_node("as_expression"));
    assert!(!JsLowerer::is_ts_type_node("identifier"));
    assert!(!JsLowerer::is_ts_type_node(""));
}

#[test]
fn optional_chain_detection() {
    let with_chain = inner(
        "member_expression",
        0,
        4,
        vec![leaf("identifier", true, 0, "a"), leaf("optional_chain", true, 1, "?."), leaf("property_identifier", true, 3, "b")],
    );
    assert!(JsLowerer::has_optional_chain(&with_chain));
    let by_field = inner(
        "call_expression",
        0,
        5,
        vec![with_field(leaf("?.", false, 1, "?."), "optional_chain")],
    );
    assert!(JsLowerer::has_optional_chain(&by_field));
    let without = inner("member_expression", 0, 3, vec![leaf("identifier", true, 0, "a"), leaf(".", false, 1, ".")]);
    assert!(!JsLowerer::has_optional_chain(&without));
}

#[test]
fn lower_error_message() {
    let e = LowerError::UnexpectedNode { kind: "foo".to_string(), expected: "bar".to_string() };
    assert_eq!(e.message(), "unexpected node 'foo', expected bar");
}

#[test]
fn typescript_casts_are_looked_through() {
    let m = lower_source("y = x as number;\nz = w!;", Language::TypeScript);
    for (n, name) in m.body.iter().zip(["x", "w"]) {
        match n {
            IrNode::ExpressionStatement(s) => match &s.expression {
                IrExpr::Assignment(a) => {
                    assert!(matches!(&*a.value, IrExpr::Identifier(id) if id.name == name))
                },
                other => panic!("unexpected {:?}", other),
            },
            other => panic!("unexpected {:?}", other),
        }
    }
}

#[test]
fn labeled_and_throw_statements() {
    let m = lower_source("outer: for (;;) { break outer; }\nthrow err;", Language::JavaScript);
    assert_eq!(m.body.len(), 2);
    match &m.body[0] {
        IrNode::Labeled(l) => {
            assert_eq!(l.label, "outer");
            assert_eq!(l.body.body.len(), 1);
        },
        other => panic!("unexpected {:?}", other),
    }
    assert!(matches!(&m.body[1], IrNode::Throw(t) if matches!(&t.argument, IrExpr::Identifier(id) if id.name == "err")));
}

#[test]
fn opaque_expressions_look_through_parentheses() {
    let source = "y = (/re/g);";
    let m = lower_source(source, Language::JavaScript);
    match &m.body[0] {
        IrNode::ExpressionStatement(s) => match &s.expression {
            IrExpr::Assignment(a) => match &*a.value {
                IrExpr::Opaque(o) => {
                    assert_eq!(o.cst_kind, "regex");
                    assert_eq!(o.text, "/re/g");
                    assert_eq!(o.span.start.offset, 5);
                },
                other => panic!("unexpected {:?}", other),
            },
            other => panic!("unexpected {:?}", other),
        },
        other => panic!("unexpected {:?}", other),
    }
}

#[test]
fn exported_generators_keep_their_declaration() {
    let m = lower_source("export function* g() { yield 1; }", Language::JavaScript);
    assert_eq!(m.body.len(), 1);
    match &m.body[0] {
        IrNode::FunctionDecl(f) => {
            assert_eq!(f.name.as_deref(), Some("g"));
            assert!(f.annotations.is_export);
            assert!(f.annotations.is_generator);
            assert!(!f.annotations.is_default);
        },
        other => panic!("unexpected {:?}", other),
    }
}

#[test]
fn functions_take_the_declarator_name() {
    let m = lower_source(
        "const foo = () => {};\nconst bar = function baz() {};\nconst qux = function () {};",
        Language::JavaScript,
    );
    let names: Vec<Option<&str>> = m
        .body
        .iter()
        .map(|n| match &variable_decl(n).value {
            Some(IrExpr::FunctionExpr(f)) => f.name.as_deref(),
            other => panic!("unexpected {:?}", other),
        })
        .collect();
    assert_eq!(names, vec![Some("foo"), Some("baz"), Some("qux")]);
}

#[test]
fn typescript_parameters_are_named_without_types() {
    let m = lower_source("function f(x: number, y: string = \"a\", z?: boolean) {}", Language::TypeScript);
    match &m.body[0] {
        IrNode::FunctionDecl(f) => {
            let names: Vec<&str> = f.params.iter().map(|p| p.name.as_str()).collect();
            assert_eq!(names, vec!["x", "y", "z"]);
            assert!(f.params[0].default_value.is_none());
            assert!(f.params[1].default_value.is_some());
        },
        other => panic!("unexpected {:?}", other),
    }
}

#[test]
fn superclass_comes_from_extends() {
    let m = lower_source("class Foo extends Bar implements I {}\nclass A implements I {}", Language::TypeScript);
    match &m.body[0] {
        IrNode::ClassDecl(c) => {
            assert_eq!(c.name.as_deref(), Some("Foo"));
            assert!(matches!(&c.super_class, Some(IrExpr::Identifier(id)) if id.name == "Bar"));
        },
        other => panic!("unexpected {:?}", other),
    }
    match &m.body[1] {
        IrNode::ClassDecl(c) => assert!(c.super_class.is_none()),
        other => panic!("unexpected {:?}", other),
    }
    let m = lower_source("class Foo extends Bar {}", Language::JavaScript);
    match &m.body[0] {
        IrNode::ClassDecl(c) => {
            assert!(matches!(&c.super_class, Some(IrExpr::Identifier(id)) if id.name == "Bar"))
        },
        other => panic!("unexpected {:?}", other),
    }
}

#[test]
fn comments_are_not_arguments_or_properties() {
    let m = lower_source("f(a, /* note */ b);\no = { a: 1, /* note */ b };", Language::JavaScript);
    match &m.body[0] {
        IrNode::ExpressionStatement(s) => match &s.expression {
            IrExpr::Call(c) => assert_eq!(c.arguments.len(), 2),
            other => panic!("unexpected {:?}", other),
        },
        other => panic!("unexpected {:?}", other),
    }
    match &m.body[1] {
        IrNode::ExpressionStatement(s) => match &s.expression {
            IrExpr::Assignment(a) => match &*a.value {
                IrExpr::ObjectExpr(o) => assert_eq!(o.properties.len(), 2),
                other => panic!("unexpected {:?}", other),
            },
            other => panic!("unexpected {:?}", other),
        },
        other => panic!("unexpected {:?}", other),
    }
}

fn assigned_value(m: &IrModule, i: usize) -> &IrExpr {
    match &m.body[i] {
        IrNode::ExpressionStatement(s) => match &s.expression {
            IrExpr::Assignment(a) => &a.value,
            other => panic!("unexpected {:?}", other),
        },
        other => panic!("unexpected {:?}", other),
    }
}

#[test]
fn nested_casts_lower_as_the_innermost_operand() {
    let m = lower_source("y = x as unknown as number;\nz = <number>w;\nv = (u as A)!;", Language::TypeScript);
    assert!(matches!(assigned_value(&m, 0), IrExpr::Identifier(id) if id.name == "x"));
    assert!(matches!(assigned_value(&m, 1), IrExpr::Identifier(id) if id.name == "w"));
    assert!(matches!(assigned_value(&m, 2), IrExpr::Identifier(id) if id.name == "u"));
}

#[test]
fn tagged_template_without_substitution() {
    let m = lower_source("x = tag`abc`;", Language::JavaScript);
    match assigned_value(&m, 0) {
        IrExpr::TaggedTemplate(t) => {
            assert!(matches!(&*t.tag, IrExpr::Identifier(id) if id.name == "tag"));
            match &*t.quasi {
                IrExpr::TemplateLiteral(q) => {
                    assert_eq!(q.quasis, vec!["abc".to_string()]);
                    assert!(q.expressions.is_empty());
                },
                other => panic!("unexpected {:?}", other),
            }
        },
        other => panic!("unexpected {:?}", other),
    }
}

#[test]
fn concise_arrow_body_returns_its_expression() {
    let m = lower_source("x = async (a) => a;", Language::JavaScript);
    match assigned_value(&m, 0) {
        IrExpr::FunctionExpr(f) => {
            assert!(f.is_arrow);
            assert!(f.annotations.is_async);
            assert_eq!(f.body.body.len(), 1);
            assert!(matches!(&f.body.body[0], IrNode::Return(r)
                if matches!(&r.value, Some(IrExpr::Identifier(id)) if id.name == "a")));
        },
        other => panic!("unexpected {:?}", other),
    }
}

#[test]
fn parentheses_leave_no_trace() {
    let m = lower_source("x = ((a));", Language::JavaScript);
    assert!(matches!(assigned_value(&m, 0), IrExpr::Identifier(id) if id.name == "a"));
}
