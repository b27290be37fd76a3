//! What holds of lowering as a whole, proved over the models of `spec`.
use vstd::prelude::*;

use crate::cst::{any_child, field_child, find_child, first_named, is_named, kind_is, lemma_find_child, token_is, CstNode};
use crate::ir::{Annotations, DeclKind, ForKind, MethodKind, ScopeLevel};
use crate::ir_model::{
    SpecBlock, SpecClassDecl, SpecFunctionDecl, SpecIrExpr, SpecIrNode, SpecOpaqueExpr, SpecOpaqueNode,
    SpecExportSpecifier, SpecParam, SpecReturnStmt, SpecTaggedTemplate, SpecVariableDecl,
};
use crate::parser::Language;

use super::spec::{
    decl_annotations, is_decl_keyword, is_function_or_class, mark_all_exported, spec_decl_kind_and_scope,
    cast_operand, is_variable_declaration, lemma_cast_operand, mark_declaration_exported,
    name_function_value, spec_is_ts_cast, spec_is_ts_type_node, spec_lower_boolean_literal, spec_lower_null_literal, spec_lower_undefined,
    LowererModel,
};

verus! {

/// The statements that the first `i` children of `p` lower to depend only on
/// those children.
proof fn lemma_children_upto_prefix(m: LowererModel, p: CstNode, a: CstNode, i: int)
    requires
        0 <= i <= a.children@.len(),
        i <= p.children@.len(),
        forall|k: int| 0 <= k < i ==> #[trigger] p.children@[k] == a.children@[k],
    ensures
        m.lower_children_upto(p, i) == m.lower_children_upto(a, i),
    decreases i,
{
    if i > 0 {
        lemma_children_upto_prefix(m, p, a, i - 1);
        assert(p.children@[i - 1] == a.children@[i - 1]);
    }
}

/// The statements that `p` lowers to past `a`'s children are those that
/// `b`'s children lower to, where `p`'s children are `a`'s then `b`'s.
proof fn lemma_children_upto_suffix(m: LowererModel, p: CstNode, a: CstNode, b: CstNode, j: int)
    requires
        p.children@ == a.children@ + b.children@,
        0 <= j <= b.children@.len(),
    ensures
        m.lower_children_upto(p, a.children@.len() + j) == m.spec_lower_children(a)
            + m.lower_children_upto(b, j),
    decreases j,
{
    let n = a.children@.len() as int;
    if j == 0 {
        assert forall|k: int| 0 <= k < n implies #[trigger] p.children@[k] == a.children@[k] by {
            assert((a.children@ + b.children@)[k] == a.children@[k]);
        }
        lemma_children_upto_prefix(m, p, a, n);
        assert(m.lower_children_upto(b, 0) =~= Seq::<SpecIrNode>::empty());
        assert(m.spec_lower_children(a) + Seq::<SpecIrNode>::empty() =~= m.spec_lower_children(a));
    } else {
        lemma_children_upto_suffix(m, p, a, b, j - 1);
        let c = p.children@[n + j - 1];
        assert(c == b.children@[j - 1]);
        let x = m.spec_lower_children(a);
        let y = m.lower_children_upto(b, j - 1);
        if c.kind@ == "lexical_declaration"@ || c.kind@ == "variable_declaration"@ {
            assert((x + y) + m.spec_lower_variable_declaration(c) =~= x + (y
                + m.spec_lower_variable_declaration(c)));
        } else if c.kind@ == "export_statement"@ && find_child(c, super::spec::is_variable_declaration()) is Some {
            let d = find_child(c, super::spec::is_variable_declaration())->0;
            assert((x + y) + mark_all_exported(m.spec_lower_variable_declaration(d)) =~= x + (y
                + mark_all_exported(m.spec_lower_variable_declaration(d))));
        } else {
            match m.spec_lower_node(c) {
                Some(s) => {
                    assert((x + y).push(s) =~= x + y.push(s));
                },
                None => {},
            }
        }
    }
}

/// Lowering keeps source order: where the children of `p` are those of `a`
/// followed by those of `b`, `p` lowers to what `a` lowers to followed by
/// what `b` lowers to.
pub proof fn law_lowering_keeps_source_order(m: LowererModel, p: CstNode, a: CstNode, b: CstNode)
    requires
        p.children@ == a.children@ + b.children@,
    ensures
        m.spec_lower_children(p) == m.spec_lower_children(a) + m.spec_lower_children(b),
{
    lemma_children_upto_suffix(m, p, a, b, b.children@.len() as int);
}

/// The `let`, `const` or `var` keyword of a declaration: its first unnamed
/// child of one of those kinds, or the empty string.
pub open spec fn declaration_keyword(node: CstNode) -> Seq<char> {
    match find_child(node, is_decl_keyword()) {
        Some(c) => c.kind@,
        None => Seq::empty(),
    }
}

/// The number of `variable_declarator` children among the first `i` children
/// of `node`.
pub open spec fn declarators_among(node: CstNode, i: int) -> nat
    decreases i,
{
    if i <= 0 || i > node.children@.len() {
        0
    } else {
        declarators_among(node, i - 1) + if node.children@[i - 1].kind@ == "variable_declarator"@ {
            1nat
        } else {
            0nat
        }
    }
}

/// The number of `variable_declarator` children of `node`.
pub open spec fn declarator_count(node: CstNode) -> nat {
    declarators_among(node, node.children@.len() as int)
}

proof fn lemma_declarators_upto(m: LowererModel, node: CstNode, i: int, ann: Annotations)
    requires
        0 <= i <= node.children@.len(),
    ensures
        m.declarators_upto(node, i, ann).len() == declarators_among(node, i),
        forall|k: int|
            0 <= k < m.declarators_upto(node, i, ann).len() ==> (#[trigger] m.declarators_upto(
                node,
                i,
                ann,
            )[k] matches SpecIrNode::VariableDecl(v) && v.annotations == ann),
    decreases i,
{
    if i > 0 {
        lemma_declarators_upto(m, node, i - 1, ann);
    }
}

/// A `let`, `const` or `var` declaration lowers to one variable declaration
/// per declarator (one without a name where it has none), each annotated
/// with the kind and scope that its keyword gives: `var` is scoped to the
/// function, `let` and `const` to the block.
pub proof fn law_declaration_per_declarator(m: LowererModel, node: CstNode)
    ensures
        m.spec_lower_variable_declaration(node).len() == if declarator_count(node) == 0 {
            1
        } else {
            declarator_count(node)
        },
        forall|k: int|
            0 <= k < m.spec_lower_variable_declaration(node).len() ==> (
            #[trigger] m.spec_lower_variable_declaration(node)[k] matches SpecIrNode::VariableDecl(v)
                && v.annotations == decl_annotations(
                spec_decl_kind_and_scope(declaration_keyword(node)).1,
                spec_decl_kind_and_scope(declaration_keyword(node)).0,
            )),
        declaration_keyword(node) == "var"@ ==> spec_decl_kind_and_scope(declaration_keyword(node)) == (
        Some(DeclKind::Var), Some(ScopeLevel::Function)),
        declaration_keyword(node) == "let"@ ==> spec_decl_kind_and_scope(declaration_keyword(node)) == (
        Some(DeclKind::Let), Some(ScopeLevel::Block)),
        declaration_keyword(node) == "const"@ ==> spec_decl_kind_and_scope(declaration_keyword(node))
            == (Some(DeclKind::Const), Some(ScopeLevel::Block)),
{
    reveal_strlit("let");
    reveal_strlit("const");
    reveal_strlit("var");
    assert("var"@[0] != "let"@[0] && "var"@[0] != "const"@[0] && "const"@[0] != "let"@[0]);
    let (dk, sl) = spec_decl_kind_and_scope(declaration_keyword(node));
    lemma_declarators_upto(m, node, node.children@.len() as int, decl_annotations(sl, dk));
}

/// Every statement that an exported `let`, `const` or `var` declaration
/// contributes is a variable declaration marked as exported, and nothing
/// else of it changes.
pub proof fn law_exported_declarations_are_marked(m: LowererModel, d: CstNode)
    ensures
        mark_all_exported(m.spec_lower_variable_declaration(d)).len()
            == m.spec_lower_variable_declaration(d).len(),
        forall|k: int|
            0 <= k < m.spec_lower_variable_declaration(d).len() ==> (
            #[trigger] m.spec_lower_variable_declaration(d)[k] matches SpecIrNode::VariableDecl(v)
                && mark_all_exported(m.spec_lower_variable_declaration(d))[k]
                == SpecIrNode::VariableDecl(
                SpecVariableDecl { annotations: Annotations { is_export: true, ..v.annotations }, ..v },
            )),
{
    law_declaration_per_declarator(m, d);
}

/// The lengths and first letters of the statement kinds that lowering tells apart.
proof fn reveal_statement_kinds()
    ensures
        "lexical_declaration"@.len() == 19,
        "lexical_declaration"@[0] == 'l',
        "variable_declaration"@.len() == 20,
        "variable_declaration"@[0] == 'v',
        "function_declaration"@.len() == 20,
        "function_declaration"@[0] == 'f',
        "generator_function_declaration"@.len() == 30,
        "generator_function_declaration"@[0] == 'g',
        "class_declaration"@.len() == 17,
        "class_declaration"@[0] == 'c',
        "import_statement"@.len() == 16,
        "import_statement"@[0] == 'i',
        "export_statement"@.len() == 16,
        "export_statement"@[0] == 'e',
        "if_statement"@.len() == 12,
        "if_statement"@[0] == 'i',
        "for_statement"@.len() == 13,
        "for_statement"@[0] == 'f',
        "for_in_statement"@.len() == 16,
        "for_in_statement"@[0] == 'f',
        "for_of_statement"@.len() == 16,
        "for_of_statement"@[0] == 'f',
        "while_statement"@.len() == 15,
        "while_statement"@[0] == 'w',
        "do_statement"@.len() == 12,
        "do_statement"@[0] == 'd',
        "switch_statement"@.len() == 16,
        "switch_statement"@[0] == 's',
        "try_statement"@.len() == 13,
        "try_statement"@[0] == 't',
        "return_statement"@.len() == 16,
        "return_statement"@[0] == 'r',
        "throw_statement"@.len() == 15,
        "throw_statement"@[0] == 't',
        "break_statement"@.len() == 15,
        "break_statement"@[0] == 'b',
        "continue_statement"@.len() == 18,
        "continue_statement"@[0] == 'c',
        "labeled_statement"@.len() == 17,
        "labeled_statement"@[0] == 'l',
        "method_definition"@.len() == 17,
        "method_definition"@[0] == 'm',
        "field_definition"@.len() == 16,
        "field_definition"@[0] == 'f',
        "public_field_definition"@.len() == 23,
        "public_field_definition"@[0] == 'p',
        "expression_statement"@.len() == 20,
        "expression_statement"@[0] == 'e',
        "statement_block"@.len() == 15,
        "statement_block"@[0] == 's',
        "empty_statement"@.len() == 15,
        "empty_statement"@[0] == 'e',
        "comment"@.len() == 7,
        "comment"@[0] == 'c',
        "type_annotation"@.len() == 15,
        "type_annotation"@[0] == 't',
        "type_parameters"@.len() == 15,
        "type_parameters"@[0] == 't',
        "type_arguments"@.len() == 14,
        "type_arguments"@[0] == 't',
        "interface_declaration"@.len() == 21,
        "interface_declaration"@[0] == 'i',
        "type_alias_declaration"@.len() == 22,
        "type_alias_declaration"@[0] == 't',
        "enum_declaration"@.len() == 16,
        "enum_declaration"@[0] == 'e',
        "as_expression"@.len() == 13,
        "as_expression"@[0] == 'a',
        "satisfies_expression"@.len() == 20,
        "satisfies_expression"@[0] == 's',
        "non_null_expression"@.len() == 19,
        "non_null_expression"@[0] == 'n',
        "type_assertion"@.len() == 14,
        "type_assertion"@[0] == 't',
{
    reveal_strlit("lexical_declaration");
    reveal_strlit("variable_declaration");
    reveal_strlit("function_declaration");
    reveal_strlit("generator_function_declaration");
    reveal_strlit("class_declaration");
    reveal_strlit("import_statement");
    reveal_strlit("export_statement");
    reveal_strlit("if_statement");
    reveal_strlit("for_statement");
    reveal_strlit("for_in_statement");
    reveal_strlit("for_of_statement");
    reveal_strlit("while_statement");
    reveal_strlit("do_statement");
    reveal_strlit("switch_statement");
    reveal_strlit("try_statement");
    reveal_strlit("return_statement");
    reveal_strlit("throw_statement");
    reveal_strlit("break_statement");
    reveal_strlit("continue_statement");
    reveal_strlit("labeled_statement");
    reveal_strlit("method_definition");
    reveal_strlit("field_definition");
    reveal_strlit("public_field_definition");
    reveal_strlit("expression_statement");
    reveal_strlit("statement_block");
    reveal_strlit("empty_statement");
    reveal_strlit("comment");
    reveal_strlit("type_annotation");
    reveal_strlit("type_parameters");
    reveal_strlit("type_arguments");
    reveal_strlit("interface_declaration");
    reveal_strlit("type_alias_declaration");
    reveal_strlit("enum_declaration");
    reveal_strlit("as_expression");
    reveal_strlit("satisfies_expression");
    reveal_strlit("non_null_expression");
    reveal_strlit("type_assertion");
}

/// The lengths and first letters of the expression kinds that lowering tells apart.
proof fn reveal_expression_kinds()
    ensures
        "assignment_expression"@.len() == 21,
        "assignment_expression"@[0] == 'a',
        "augmented_assignment_expression"@.len() == 31,
        "augmented_assignment_expression"@[0] == 'a',
        "call_expression"@.len() == 15,
        "call_expression"@[0] == 'c',
        "member_expression"@.len() == 17,
        "member_expression"@[0] == 'm',
        "subscript_expression"@.len() == 20,
        "subscript_expression"@[0] == 's',
        "binary_expression"@.len() == 17,
        "binary_expression"@[0] == 'b',
        "identifier"@.len() == 10,
        "identifier"@[0] == 'i',
        "shorthand_property_identifier"@.len() == 29,
        "shorthand_property_identifier"@[0] == 's',
        "property_identifier"@.len() == 19,
        "property_identifier"@[0] == 'p',
        "this"@.len() == 4,
        "this"@[0] == 't',
        "super"@.len() == 5,
        "super"@[0] == 's',
        "number"@.len() == 6,
        "number"@[0] == 'n',
        "string"@.len() == 6,
        "string"@[0] == 's',
        "template_string"@.len() == 15,
        "template_string"@[0] == 't',
        "true"@.len() == 4,
        "true"@[0] == 't',
        "false"@.len() == 5,
        "false"@[0] == 'f',
        "null"@.len() == 4,
        "null"@[0] == 'n',
        "undefined"@.len() == 9,
        "undefined"@[0] == 'u',
        "unary_expression"@.len() == 16,
        "unary_expression"@[0] == 'u',
        "update_expression"@.len() == 17,
        "update_expression"@[0] == 'u',
        "ternary_expression"@.len() == 18,
        "ternary_expression"@[0] == 't',
        "arrow_function"@.len() == 14,
        "arrow_function"@[0] == 'a',
        "function_expression"@.len() == 19,
        "function_expression"@[0] == 'f',
        "generator_function"@.len() == 18,
        "generator_function"@[0] == 'g',
        "new_expression"@.len() == 14,
        "new_expression"@[0] == 'n',
        "await_expression"@.len() == 16,
        "await_expression"@[0] == 'a',
        "yield_expression"@.len() == 16,
        "yield_expression"@[0] == 'y',
        "spread_element"@.len() == 14,
        "spread_element"@[0] == 's',
        "array"@.len() == 5,
        "array"@[0] == 'a',
        "object"@.len() == 6,
        "object"@[0] == 'o',
        "parenthesized_expression"@.len() == 24,
        "parenthesized_expression"@[0] == 'p',
        "type_annotation"@.len() == 15,
        "type_annotation"@[0] == 't',
        "type_parameters"@.len() == 15,
        "type_parameters"@[0] == 't',
        "type_arguments"@.len() == 14,
        "type_arguments"@[0] == 't',
        "interface_declaration"@.len() == 21,
        "interface_declaration"@[0] == 'i',
        "type_alias_declaration"@.len() == 22,
        "type_alias_declaration"@[0] == 't',
        "enum_declaration"@.len() == 16,
        "enum_declaration"@[0] == 'e',
        "as_expression"@.len() == 13,
        "as_expression"@[0] == 'a',
        "satisfies_expression"@.len() == 20,
        "satisfies_expression"@[0] == 's',
        "non_null_expression"@.len() == 19,
        "non_null_expression"@[0] == 'n',
        "type_assertion"@.len() == 14,
        "type_assertion"@[0] == 't',
{
    reveal_strlit("assignment_expression");
    reveal_strlit("augmented_assignment_expression");
    reveal_strlit("call_expression");
    reveal_strlit("member_expression");
    reveal_strlit("subscript_expression");
    reveal_strlit("binary_expression");
    reveal_strlit("identifier");
    reveal_strlit("shorthand_property_identifier");
    reveal_strlit("property_identifier");
    reveal_strlit("this");
    reveal_strlit("super");
    reveal_strlit("number");
    reveal_strlit("string");
    reveal_strlit("template_string");
    reveal_strlit("true");
    reveal_strlit("false");
    reveal_strlit("null");
    reveal_strlit("undefined");
    reveal_strlit("unary_expression");
    reveal_strlit("update_expression");
    reveal_strlit("ternary_expression");
    reveal_strlit("arrow_function");
    reveal_strlit("function_expression");
    reveal_strlit("generator_function");
    reveal_strlit("new_expression");
    reveal_strlit("await_expression");
    reveal_strlit("yield_expression");
    reveal_strlit("spread_element");
    reveal_strlit("array");
    reveal_strlit("object");
    reveal_strlit("parenthesized_expression");
    reveal_strlit("type_annotation");
    reveal_strlit("type_parameters");
    reveal_strlit("type_arguments");
    reveal_strlit("interface_declaration");
    reveal_strlit("type_alias_declaration");
    reveal_strlit("enum_declaration");
    reveal_strlit("as_expression");
    reveal_strlit("satisfies_expression");
    reveal_strlit("non_null_expression");
    reveal_strlit("type_assertion");
}

/// Whether every `${...}` substitution among the children of a template
/// string holds an expression.
pub open spec fn substitutions_filled(node: CstNode) -> bool {
    forall|k: int|
        0 <= k < node.children@.len() && (#[trigger] node.children@[k]).kind@ == "template_substitution"@
            ==> first_named(node.children@[k]) is Some
}

proof fn lemma_template_parts(m: LowererModel, node: CstNode, i: int)
    requires
        substitutions_filled(node),
        0 <= i <= node.children@.len(),
    ensures
        m.template_parts_upto(node, i).0.len() == m.template_parts_upto(node, i).1.len(),
    decreases i,
{
    if i > 0 {
        lemma_template_parts(m, node, i - 1);
        let c = node.children@[i - 1];
        if c.kind@ == "template_substitution"@ {
            assert(first_named(c) is Some);
        }
    }
}

/// A template literal has one more text part than substitutions, where every
/// substitution holds an expression.
pub proof fn law_template_literal_parts(m: LowererModel, node: CstNode)
    requires
        substitutions_filled(node),
    ensures
        m.spec_lower_template_as_literal(node) matches SpecIrExpr::TemplateLiteral(t)
            && t.quasis.len() == t.expressions.len() + 1,
{
    lemma_template_parts(m, node, node.children@.len() as int);
}

/// Syntactic noise lowers to no statement: unnamed tokens and, in TypeScript
/// and TSX, type-only constructs.
pub proof fn law_noise_is_dropped(m: LowererModel, node: CstNode)
    ensures
        !node.named ==> m.spec_lower_node(node) is None,
        m.language != Language::JavaScript && spec_is_ts_type_node(node.kind@)
            ==> m.spec_lower_node(node) is None,
{
}

/// `x` is not opaque, or it is the opaque form of `node`.
spec fn node_or_opaque_of(m: LowererModel, node: CstNode, x: SpecIrNode) -> bool {
    x is Opaque ==> x == m.opaque_node(node)
}

/// An exported function, generator or class declaration lowers to a
/// declaration, so an export is opaque only as itself.
proof fn lemma_exported_declaration_not_opaque(m: LowererModel, node: CstNode)
    ensures
        node_or_opaque_of(m, node, m.spec_lower_export_declaration(node)),
{
    lemma_find_child(node, is_function_or_class());
    if let Some(decl) = find_child(node, is_function_or_class()) {
        reveal_strlit("function_declaration");
        reveal_strlit("generator_function_declaration");
        reveal_strlit("class_declaration");
        reveal_strlit("satisfies_expression");
        reveal_strlit("type_annotation");
        reveal_strlit("type_parameters");
        reveal_strlit("type_arguments");
        reveal_strlit("interface_declaration");
        reveal_strlit("type_alias_declaration");
        reveal_strlit("enum_declaration");
        reveal_strlit("as_expression");
        reveal_strlit("non_null_expression");
        reveal_strlit("type_assertion");
        reveal_strlit("lexical_declaration");
        reveal_strlit("variable_declaration");
        assert(decl.kind@ == "function_declaration"@ || decl.kind@ == "generator_function_declaration"@
            || decl.kind@ == "class_declaration"@);
        assert("generator_function_declaration"@.len() == 30);
        assert("function_declaration"@[0] != "satisfies_expression"@[0]);
        assert("function_declaration"@[0] != "variable_declaration"@[0]);
        assert(!spec_is_ts_type_node(decl.kind@));
        assert(decl.kind@ != "lexical_declaration"@);
        assert(decl.kind@ != "variable_declaration"@);
        assert(m.spec_lower_node(decl) matches Some(inner) ==> !(inner is Opaque));
    }
}

/// Where a statement is kept opaque, it keeps the span, the kind and the
/// text of the node it comes from.
pub proof fn law_opaque_statement_keeps_node(m: LowererModel, node: CstNode)
    ensures
        m.spec_lower_node(node) matches Some(SpecIrNode::Opaque(o)) ==> o == (SpecOpaqueNode {
            span: node.span,
            cst_kind: node.kind@,
            text: m.spec_node_text(node),
        }),
{
    let k = node.kind@;
    assert(node_or_opaque_of(m, node, m.spec_lower_function_declaration(node)));
    assert(node_or_opaque_of(m, node, m.spec_lower_class_declaration(node)));
    assert(node_or_opaque_of(m, node, m.spec_lower_import_declaration(node)));
    assert(node_or_opaque_of(m, node, m.spec_lower_if_statement(node)));
    assert(node_or_opaque_of(m, node, m.spec_lower_for_statement(node)));
    assert(node_or_opaque_of(m, node, m.spec_lower_for_in_statement(node)));
    assert(node_or_opaque_of(m, node, m.spec_lower_while_statement(node)));
    assert(node_or_opaque_of(m, node, m.spec_lower_do_while_statement(node)));
    assert(node_or_opaque_of(m, node, m.spec_lower_switch_statement(node)));
    assert(node_or_opaque_of(m, node, m.spec_lower_try_statement(node)));
    assert(node_or_opaque_of(m, node, m.spec_lower_return_statement(node)));
    assert(node_or_opaque_of(m, node, m.spec_lower_throw_statement(node)));
    assert(node_or_opaque_of(m, node, m.spec_lower_break_statement(node)));
    assert(node_or_opaque_of(m, node, m.spec_lower_continue_statement(node)));
    assert(node_or_opaque_of(m, node, m.spec_lower_labeled_statement(node)));
    assert(node_or_opaque_of(m, node, m.spec_lower_method_definition(node)));
    assert(node_or_opaque_of(m, node, m.spec_lower_property_definition(node)));
    law_declaration_per_declarator(m, node);
    assert(node_or_opaque_of(m, node, m.spec_lower_variable_declaration(node)[0]));
    lemma_exported_declaration_not_opaque(m, node);
    assert(node_or_opaque_of(m, node, m.spec_lower_export_declaration(node)));
}

/// The node an expression stands for once parentheses, and in TypeScript
/// and TSX casts, assertions and `satisfies`, are looked through.
pub open spec fn without_wrappers(m: LowererModel, node: CstNode) -> CstNode
    decreases node,
{
    if m.language != Language::JavaScript && spec_is_ts_cast(node.kind@) {
        match cast_operand(node) {
            Some(c) => {
                proof {
                    lemma_cast_operand(node);
                }
                without_wrappers(m, c)
            },
            None => node,
        }
    } else if node.kind@ == "parenthesized_expression"@ {
        match first_named(node) {
            Some(c) => {
                proof {
                    lemma_find_child(node, is_named());
                }
                without_wrappers(m, c)
            },
            None => node,
        }
    } else {
        node
    }
}

/// `x` is not opaque.
spec fn not_opaque(x: SpecIrExpr) -> bool {
    !(x is Opaque)
}

/// Where an expression is kept opaque, it keeps the span, the kind and the
/// text of the node it comes from, once parentheses and type-only casts are
/// looked through.
pub proof fn law_opaque_expression_keeps_node(m: LowererModel, node: CstNode)
    ensures
        m.spec_lower_expression(node) matches SpecIrExpr::Opaque(o) ==> o == (SpecOpaqueExpr {
            span: without_wrappers(m, node).span,
            cst_kind: without_wrappers(m, node).kind@,
            text: m.spec_node_text(without_wrappers(m, node)),
        }),
    decreases node,
{
    let k = node.kind@;
    assert(not_opaque(m.spec_lower_assignment_expression(node)));
    assert(not_opaque(m.spec_lower_call_expression(node)));
    assert(not_opaque(m.spec_lower_member_expression(node)));
    assert(not_opaque(m.spec_lower_subscript_expression(node)));
    assert(not_opaque(m.spec_lower_binary_expression(node)));
    assert(not_opaque(m.spec_lower_identifier(node)));
    assert(not_opaque(m.spec_lower_number_literal(node)));
    assert(not_opaque(m.spec_lower_string_literal(node)));
    assert(not_opaque(m.spec_lower_template_string(node))) by {
        assert(not_opaque(m.spec_lower_template_as_literal(node)));
    }
    assert(not_opaque(spec_lower_boolean_literal(node)));
    assert(not_opaque(spec_lower_null_literal(node)));
    assert(not_opaque(spec_lower_undefined(node)));
    assert(not_opaque(m.spec_lower_unary_expression(node)));
    assert(not_opaque(m.spec_lower_update_expression(node)));
    assert(not_opaque(m.spec_lower_conditional_expression(node)));
    assert(not_opaque(m.spec_lower_arrow_function(node)));
    assert(not_opaque(m.spec_lower_function_expression(node)));
    assert(not_opaque(m.spec_lower_new_expression(node)));
    assert(not_opaque(m.spec_lower_await_expression(node)));
    assert(not_opaque(m.spec_lower_yield_expression(node)));
    assert(not_opaque(m.spec_lower_spread_expression(node)));
    assert(not_opaque(m.spec_lower_array_expression(node)));
    assert(not_opaque(m.spec_lower_object_expression(node)));
    if m.language != Language::JavaScript && spec_is_ts_cast(k) {
        lemma_cast_operand(node);
        if let Some(c) = cast_operand(node) {
            law_opaque_expression_keeps_node(m, c);
        }
    } else if k == "parenthesized_expression"@ {
        reveal_strlit("parenthesized_expression");
        reveal_strlit("type_annotation");
        reveal_strlit("type_parameters");
        reveal_strlit("type_arguments");
        reveal_strlit("interface_declaration");
        reveal_strlit("type_alias_declaration");
        reveal_strlit("enum_declaration");
        reveal_strlit("as_expression");
        reveal_strlit("satisfies_expression");
        reveal_strlit("non_null_expression");
        reveal_strlit("type_assertion");
        assert(k.len() == 24);
        assert(!spec_is_ts_type_node(k));
        lemma_find_child(node, is_named());
        if let Some(c) = first_named(node) {
            law_opaque_expression_keeps_node(m, c);
        }
    }
}

/// A `for..of` loop is recognized as one.
pub proof fn law_for_of_is_recognized(m: LowererModel, node: CstNode)
    requires
        node.kind@ == "for_of_statement"@,
    ensures
        m.spec_lower_for_in_statement(node) matches SpecIrNode::For(f) && f.annotations.kind == ForKind::Of,
{
}

/// In TypeScript and TSX, a cast, a non-null assertion or `satisfies` is
/// looked through: it lowers as its operand, which for `e as T`,
/// `e satisfies T` and `e!` is its first named child, so that
/// `e as A as B` lowers as `e`.
pub proof fn law_casts_are_looked_through(m: LowererModel, node: CstNode)
    requires
        m.language != Language::JavaScript,
        spec_is_ts_cast(node.kind@),
    ensures
        cast_operand(node) matches Some(c) ==> m.spec_lower_expression(node)
            == m.spec_lower_expression(c),
        node.kind@ != "type_assertion"@ ==> cast_operand(node) == first_named(node),
{
}

/// Whether `c` is a member of a list: a named node that is not a comment.
pub open spec fn is_list_member(c: CstNode) -> bool {
    c.named && c.kind@ != "comment"@
}

/// The number of members among the first `i` children of `node`.
pub open spec fn members_among(node: CstNode, i: int) -> nat
    decreases i,
{
    if i <= 0 || i > node.children@.len() {
        0
    } else {
        members_among(node, i - 1) + if is_list_member(node.children@[i - 1]) {
            1nat
        } else {
            0nat
        }
    }
}

proof fn lemma_object_properties_count(m: LowererModel, node: CstNode, i: int)
    requires
        0 <= i <= node.children@.len(),
    ensures
        m.object_properties_upto(node, i).len() == members_among(node, i),
    decreases i,
{
    if i > 0 {
        lemma_object_properties_count(m, node, i - 1);
    }
}

proof fn lemma_arguments_count(m: LowererModel, node: CstNode, i: int)
    requires
        0 <= i <= node.children@.len(),
    ensures
        m.named_exprs_upto(node, i).len() == members_among(node, i),
    decreases i,
{
    if i > 0 {
        lemma_arguments_count(m, node, i - 1);
    }
}

/// Comments are no members of object literals or argument lists: an object
/// literal has one property per named child that is not a comment, and an
/// argument list one argument per such child.
pub proof fn law_comments_are_not_members(m: LowererModel, node: CstNode)
    ensures
        m.object_properties_upto(node, node.children@.len() as int).len() == members_among(
            node,
            node.children@.len() as int,
        ),
        m.named_exprs_upto(node, node.children@.len() as int).len() == members_among(
            node,
            node.children@.len() as int,
        ),
{
    lemma_object_properties_count(m, node, node.children@.len() as int);
    lemma_arguments_count(m, node, node.children@.len() as int);
}

proof fn lemma_declarators_name_functions(m: LowererModel, node: CstNode, i: int, ann: Annotations)
    requires
        0 <= i <= node.children@.len(),
    ensures
        forall|k: int|
            0 <= k < m.declarators_upto(node, i, ann).len() ==> (#[trigger] m.declarators_upto(
                node,
                i,
                ann,
            )[k] matches SpecIrNode::VariableDecl(v) && (v.pattern is None ==> (v.value matches Some(
                SpecIrExpr::FunctionExpr(f),
            ) ==> f.name is Some))),
    decreases i,
{
    if i > 0 {
        lemma_declarators_name_functions(m, node, i - 1, ann);
        let d = node.children@[i - 1];
        if d.kind@ == "variable_declarator"@ {
            let (name, pattern) = m.field_name_and_pattern(d, "name"@);
            let value = m.opt_field_expression(d, "value"@);
            let named = name_function_value(value, name, pattern);
            assert(pattern is None ==> (named matches Some(SpecIrExpr::FunctionExpr(f)) ==> f.name
                is Some));
        }
    }
}

/// A function bound by a declarator to a plain name is never anonymous: it
/// keeps its own name, else it takes the declarator's, so that
/// `const foo = () => {}` declares a function named `foo`.
pub proof fn law_declared_functions_are_named(m: LowererModel, node: CstNode)
    ensures
        forall|k: int|
            0 <= k < m.spec_lower_variable_declaration(node).len() ==> (
            #[trigger] m.spec_lower_variable_declaration(node)[k] matches SpecIrNode::VariableDecl(v)
                && (v.pattern is None ==> (v.value matches Some(SpecIrExpr::FunctionExpr(f))
                ==> f.name is Some))),
{
    let (dk, sl) = spec_decl_kind_and_scope(declaration_keyword(node));
    lemma_declarators_name_functions(m, node, node.children@.len() as int, decl_annotations(sl, dk));
}

/// An exported function, generator or class declaration is that
/// declaration, marked as exported, and as the default export where the
/// export says `default`.
pub proof fn law_exported_declaration_is_annotated(m: LowererModel, node: CstNode)
    ensures
        find_child(node, is_function_or_class()) matches Some(d) ==> (m.spec_lower_node(d) matches Some(
            x,
        ) ==> m.spec_lower_export_declaration(node) == mark_declaration_exported(
            x,
            any_child(node, token_is("default"@)),
        )),
        forall|x: SpecIrNode, dflt: bool|
            #![trigger mark_declaration_exported(x, dflt)]
            x matches SpecIrNode::FunctionDecl(f) ==> mark_declaration_exported(x, dflt)
                == SpecIrNode::FunctionDecl(
                SpecFunctionDecl {
                    annotations: Annotations { is_export: true, is_default: dflt, ..f.annotations },
                    ..f
                },
            ),
        forall|x: SpecIrNode, dflt: bool|
            #![trigger mark_declaration_exported(x, dflt)]
            x matches SpecIrNode::ClassDecl(c) ==> mark_declaration_exported(x, dflt)
                == SpecIrNode::ClassDecl(
                SpecClassDecl {
                    annotations: Annotations { is_export: true, is_default: dflt, ..c.annotations },
                    ..c
                },
            ),
{
}

/// Parentheses leave no trace: a parenthesized expression lowers as the
/// expression inside it.
pub proof fn law_parentheses_leave_no_trace(m: LowererModel, node: CstNode)
    requires
        node.kind@ == "parenthesized_expression"@,
    ensures
        first_named(node) matches Some(c) ==> m.spec_lower_expression(node) == m.spec_lower_expression(
            c,
        ),
{
    let k = node.kind@;
    reveal_strlit("parenthesized_expression");
    reveal_strlit("type_annotation");
    reveal_strlit("type_parameters");
    reveal_strlit("type_arguments");
    reveal_strlit("interface_declaration");
    reveal_strlit("type_alias_declaration");
    reveal_strlit("enum_declaration");
    reveal_strlit("as_expression");
    reveal_strlit("satisfies_expression");
    reveal_strlit("non_null_expression");
    reveal_strlit("type_assertion");
    reveal_strlit("assignment_expression");
    reveal_strlit("augmented_assignment_expression");
    reveal_strlit("call_expression");
    reveal_strlit("member_expression");
    reveal_strlit("subscript_expression");
    reveal_strlit("binary_expression");
    reveal_strlit("identifier");
    reveal_strlit("shorthand_property_identifier");
    reveal_strlit("property_identifier");
    reveal_strlit("this");
    reveal_strlit("super");
    reveal_strlit("number");
    reveal_strlit("string");
    reveal_strlit("template_string");
    reveal_strlit("true");
    reveal_strlit("false");
    reveal_strlit("null");
    reveal_strlit("undefined");
    reveal_strlit("unary_expression");
    reveal_strlit("update_expression");
    reveal_strlit("ternary_expression");
    reveal_strlit("arrow_function");
    reveal_strlit("function_expression");
    reveal_strlit("generator_function");
    reveal_strlit("new_expression");
    reveal_strlit("await_expression");
    reveal_strlit("yield_expression");
    reveal_strlit("spread_element");
    reveal_strlit("array");
    reveal_strlit("object");
    assert(k.len() == 24);
    assert(k[0] == 'p');
    assert("property_identifier"@.len() == 19);
    assert(!spec_is_ts_cast(k));
    assert(!spec_is_ts_type_node(k));
}

/// An arrow function with an expression body returns that expression: its
/// body is a block that holds one `return` of it.
pub proof fn law_concise_arrow_body_returns(m: LowererModel, node: CstNode)
    ensures
        field_child(node, "body"@) matches Some(b) ==> (b.kind@ != "statement_block"@ ==> (
        m.spec_lower_arrow_function(node) matches SpecIrExpr::FunctionExpr(f) && f.is_arrow && f.name
            is None && f.body == (SpecBlock {
            span: b.span,
            body: seq![
                SpecIrNode::Return(SpecReturnStmt { span: b.span, value: Some(m.spec_lower_expression(b)) }),
            ],
        }) && f.annotations.is_async == any_child(node, kind_is("async"@))
            && !f.annotations.is_generator)),
{
}

/// A call whose argument is a template string is a tagged template: its tag
/// is the lowered callee and its quasi the template as a template literal,
/// substitutions or not.
pub proof fn law_tagged_template(m: LowererModel, node: CstNode)
    ensures
        field_child(node, "arguments"@) matches Some(a) ==> (a.kind@ == "template_string"@
            ==> m.spec_lower_call_expression(node) == SpecIrExpr::TaggedTemplate(
            SpecTaggedTemplate {
                span: node.span,
                tag: m.field_expr_or_missing(node, "function"@, "missing_callee"@),
                quasi: Box::new(m.spec_lower_template_as_literal(a)),
            },
        )),
{
}

/// What one child of a program or block contributes to its statements: the
/// declarations of a variable declaration, those of an exported one marked as
/// exported, else the statement it lowers to, if any.
pub open spec fn child_contribution(m: LowererModel, c: CstNode) -> Seq<SpecIrNode> {
    if c.kind@ == "lexical_declaration"@ || c.kind@ == "variable_declaration"@ {
        m.spec_lower_variable_declaration(c)
    } else if c.kind@ == "export_statement"@ && find_child(c, is_variable_declaration()) is Some {
        mark_all_exported(m.spec_lower_variable_declaration(find_child(c, is_variable_declaration())->0))
    } else {
        match m.spec_lower_node(c) {
            Some(n) => seq![n],
            None => Seq::empty(),
        }
    }
}

/// The contributions of `s`, concatenated in order.
pub open spec fn contributions(m: LowererModel, s: Seq<CstNode>) -> Seq<SpecIrNode>
    decreases s.len(),
{
    if s.len() == 0 {
        Seq::empty()
    } else {
        contributions(m, s.drop_last()) + child_contribution(m, s.last())
    }
}

proof fn lemma_children_upto_contributions(m: LowererModel, p: CstNode, i: int)
    requires
        0 <= i <= p.children@.len(),
    ensures
        m.lower_children_upto(p, i) == contributions(m, p.children@.subrange(0, i)),
    decreases i,
{
    if i == 0 {
        assert(p.children@.subrange(0, 0) =~= Seq::<CstNode>::empty());
    } else {
        lemma_children_upto_contributions(m, p, i - 1);
        let s = p.children@.subrange(0, i);
        assert(s.drop_last() =~= p.children@.subrange(0, i - 1));
        assert(s.last() == p.children@[i - 1]);
        let c = p.children@[i - 1];
        let prev = m.lower_children_upto(p, i - 1);
        match m.spec_lower_node(c) {
            Some(n) => {
                assert(prev.push(n) =~= prev + seq![n]);
            },
            None => {
                assert(prev + Seq::<SpecIrNode>::empty() =~= prev);
            },
        }
    }
}

/// The statements of a program or block are the contributions of its
/// children, concatenated in source order: nothing is moved or hoisted.
pub proof fn law_children_lower_in_order(m: LowererModel, p: CstNode)
    ensures
        m.spec_lower_children(p) == contributions(m, p.children@),
{
    lemma_children_upto_contributions(m, p, p.children@.len() as int);
    assert(p.children@.subrange(0, p.children@.len() as int) =~= p.children@);
}

/// A binary expression keeps its operands in place: the left operand is
/// the lowering of its `left` child and the right operand that of its
/// `right` child, with the operator text between them.
pub proof fn law_binary_operands_keep_their_places(m: LowererModel, node: CstNode)
    requires
        node.kind@ == "binary_expression"@,
    ensures
        m.spec_lower_expression(node) matches SpecIrExpr::BinaryExpr(b) && b.span == node.span
            && (field_child(node, "left"@) matches Some(l) ==> *b.left == m.spec_lower_expression(l))
            && (field_child(node, "right"@) matches Some(r) ==> *b.right == m.spec_lower_expression(r))
            && (field_child(node, "left"@) is None ==> b.left->Opaque_0.cst_kind == "missing_left"@)
            && (field_child(node, "right"@) is None ==> b.right->Opaque_0.cst_kind == "missing_right"@)
            && b.operator == m.text_or_empty(field_child(node, "operator"@)),
{
    reveal_expression_kinds();
    assert(m.spec_lower_expression(node) == m.spec_lower_binary_expression(node));
    let l = m.opt_field_expression(node, "left"@);
    let r = m.opt_field_expression(node, "right"@);
    assert(field_child(node, "left"@) matches Some(c) ==> l == Some(m.spec_lower_expression(c)));
    assert(field_child(node, "right"@) matches Some(c) ==> r == Some(m.spec_lower_expression(c)));
    assert(field_child(node, "left"@) is None ==> l is None);
    assert(field_child(node, "right"@) is None ==> r is None);
}

/// A `do..while` loop is marked as one, and a `while` loop is not; both
/// keep their condition.
#[verifier::rlimit(40)]
pub proof fn law_do_while_is_marked(m: LowererModel, node: CstNode)
    requires
        node.named,
        node.kind@ == "do_statement"@ || node.kind@ == "while_statement"@,
    ensures
        field_child(node, "condition"@) matches Some(c) ==> (m.spec_lower_node(node) matches Some(
            SpecIrNode::While(w),
        ) && w.is_do_while == (node.kind@ == "do_statement"@) && w.condition == m.lower_condition(c)
            && w.span == node.span),
{
    reveal_statement_kinds();
    let k = node.kind@;
    assert(!spec_is_ts_type_node(k));
    assert(k != "lexical_declaration"@ && k != "variable_declaration"@ && k != "function_declaration"@
        && k != "generator_function_declaration"@ && k != "class_declaration"@);
    assert(k != "import_statement"@ && k != "export_statement"@ && k != "if_statement"@ && k
        != "for_statement"@ && k != "for_in_statement"@ && k != "for_of_statement"@);
    if k == "do_statement"@ {
        assert(k != "while_statement"@);
        assert(m.spec_lower_node(node) == Some(m.spec_lower_do_while_statement(node)));
    } else {
        assert(m.spec_lower_node(node) == Some(m.spec_lower_while_statement(node)));
    }
}

/// Each `export_specifier` of an export clause adds one specifier, in
/// order: its local name is the text of its `name` child, and the name it is
/// exported under is the text of its `alias` child, or the local name where it
/// has none. Other children add nothing.
pub proof fn law_export_specifier_names(m: LowererModel, ec: CstNode, i: int)
    requires
        0 < i <= ec.children@.len(),
    ensures
        ec.children@[i - 1].kind@ == "export_specifier"@ ==> m.export_specifiers_upto(ec, i)
            == m.export_specifiers_upto(ec, i - 1).push(
            SpecExportSpecifier {
                span: ec.children@[i - 1].span,
                local: m.text_or_empty(field_child(ec.children@[i - 1], "name"@)),
                exported: match field_child(ec.children@[i - 1], "alias"@) {
                    Some(a) => m.spec_node_text(a),
                    None => m.text_or_empty(field_child(ec.children@[i - 1], "name"@)),
                },
            },
        ),
        ec.children@[i - 1].kind@ != "export_specifier"@ ==> m.export_specifiers_upto(ec, i)
            == m.export_specifiers_upto(ec, i - 1),
{
}

/// A class method written with `get` is a getter, one written with `set`
/// (and not `get`) a setter, and a plain method named `constructor` the
/// constructor.
pub proof fn law_accessor_method_kinds(m: LowererModel, node: CstNode)
    requires
        node.named,
        node.kind@ == "method_definition"@,
        m.language == Language::JavaScript || !spec_is_ts_type_node(node.kind@),
    ensures
        m.spec_lower_node(node) matches Some(SpecIrNode::MethodDefinition(d)) && d.span == node.span
            && (any_child(node, token_is("get"@)) ==> d.kind == MethodKind::Getter) && (!any_child(
            node,
            token_is("get"@),
        ) && any_child(node, token_is("set"@)) ==> d.kind == MethodKind::Setter) && (!any_child(
            node,
            token_is("get"@),
        ) && !any_child(node, token_is("set"@)) && m.text_of(field_child(node, "name"@)) == Some(
            "constructor"@,
        ) ==> d.kind == MethodKind::Constructor),
{
    reveal_statement_kinds();
}

/// An arrow function with a single unparenthesized parameter `x => ...` has
/// exactly that one parameter, named by its text, without pattern or default.
pub proof fn law_arrow_single_parameter(m: LowererModel, node: CstNode)
    requires
        node.kind@ == "arrow_function"@,
        field_child(node, "parameters"@) is None,
    ensures
        field_child(node, "parameter"@) matches Some(p) ==> (p.kind@ == "identifier"@ ==> (
        m.spec_lower_expression(node) matches SpecIrExpr::FunctionExpr(f) && f.is_arrow && f.params
            == seq![
            SpecParam { span: p.span, name: m.spec_node_text(p), pattern: None, default_value: None },
        ])),
{
    reveal_expression_kinds();
    let k = node.kind@;
    assert(!spec_is_ts_cast(k) && !spec_is_ts_type_node(k));
    assert(k != "assignment_expression"@ && k != "augmented_assignment_expression"@ && k
        != "call_expression"@ && k != "member_expression"@ && k != "subscript_expression"@ && k
        != "binary_expression"@);
    assert(k != "identifier"@ && k != "shorthand_property_identifier"@ && k != "property_identifier"@
        && k != "this"@ && k != "super"@ && k != "number"@ && k != "string"@ && k
        != "template_string"@);
    assert(k != "true"@ && k != "false"@ && k != "null"@ && k != "undefined"@ && k
        != "unary_expression"@ && k != "update_expression"@ && k != "ternary_expression"@);
    assert(m.spec_lower_expression(node) == m.spec_lower_arrow_function(node));
}

} // verus!
