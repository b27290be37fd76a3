//! What lowering produces, stated over the models of the IR.
//!
//! Each spec function here states the result of the lowering method of the
//! same name. They recurse over the concrete syntax tree; the measure is the
//! node, then a rank that orders the functions applied to one and the same
//! node, then the number of children still to visit.
use vstd::prelude::*;

use crate::cst::{
    any_child, field_child, find_child, first_named, has_field, is_named, kind_is,
    lemma_find_child, token_is, CstNode,
};
use crate::ir::{
    AccessorKind, Accessibility, Annotations, DeclKind, ForAnnotations, ForKind, MethodKind,
    ScopeLevel,
};
use crate::ir_model::{
    SpecAccessorProperty, SpecArrayExpr, SpecArrayPattern, SpecAssignment, SpecAssignmentPattern,
    SpecAwaitExpr, SpecBinaryExpr, SpecBlock, SpecBreakStmt, SpecCall, SpecCatchClause,
    SpecClassDecl, SpecConditionalExpr, SpecContinueStmt, SpecExportDecl, SpecExportSpecifier,
    SpecExpressionStatement, SpecForStmt, SpecFunctionDecl, SpecIdentifier, SpecIfStmt,
    SpecImportDecl, SpecImportDefault, SpecImportNamed, SpecImportNamespace, SpecImportSpecifier,
    SpecIrExpr, SpecIrNode, SpecKeyValueProperty, SpecLabeledStmt, SpecLiteral, SpecLiteralValue,
    SpecMemberAccess, SpecMethodDefinition, SpecMethodProperty, SpecNewExpr, SpecObjectExpr,
    SpecObjectPattern, SpecObjectPatternProperty, SpecObjectProperty, SpecOpaqueExpr,
    SpecOpaqueNode, SpecParam, SpecPattern, SpecPatternKeyValue, SpecPatternRest,
    SpecPatternShorthand, SpecPropertyDefinition, SpecRestPattern, SpecReturnStmt,
    SpecShorthandProperty, SpecSpreadExpr, SpecSpreadProperty, SpecSwitchCase, SpecSwitchStmt,
    SpecTaggedTemplate, SpecTemplateLiteral, SpecThrowStmt, SpecTryCatchStmt, SpecUnaryExpr,
    SpecUpdateExpr, SpecVariableDecl, SpecWhileStmt, SpecYieldExpr,
};
use crate::parser::Language;
use crate::source::Span;
use crate::text::{spec_strip_quotes, utf8_slice};


verus! {

// ── Node shapes ──────────────────────────────────────────────────────

/// Holds of an unnamed `let`, `const` or `var` keyword.
pub open spec fn is_decl_keyword() -> spec_fn(CstNode) -> bool {
    |c: CstNode| !c.named && (c.kind@ == "let"@ || c.kind@ == "const"@ || c.kind@ == "var"@)
}

/// Holds of a `let`/`const` or `var` declaration.
pub open spec fn is_variable_declaration() -> spec_fn(CstNode) -> bool {
    |c: CstNode| c.kind@ == "lexical_declaration"@ || c.kind@ == "variable_declaration"@
}

/// Holds of a function, generator function or class declaration.
pub open spec fn is_function_or_class() -> spec_fn(CstNode) -> bool {
    |c: CstNode|
        c.kind@ == "function_declaration"@ || c.kind@ == "generator_function_declaration"@ || c.kind@
            == "class_declaration"@
}

/// Holds of the node that `export default` exports.
pub open spec fn is_default_export_candidate() -> spec_fn(CstNode) -> bool {
    |c: CstNode| c.named && c.kind@ != "export_clause"@ && c.kind@ != "string"@
}

/// Whether `k` is an assignment operator token.
pub open spec fn is_assignment_operator(k: Seq<char>) -> bool {
    ||| k == "="@
    ||| k == "+="@
    ||| k == "-="@
    ||| k == "*="@
    ||| k == "/="@
    ||| k == "%="@
    ||| k == "**="@
    ||| k == "<<="@
    ||| k == ">>="@
    ||| k == ">>>="@
    ||| k == "&="@
    ||| k == "|="@
    ||| k == "^="@
    ||| k == "&&="@
    ||| k == "||="@
    ||| k == "??="@
}

/// Holds of an assignment operator token.
pub open spec fn is_assignment_token() -> spec_fn(CstNode) -> bool {
    |c: CstNode| !c.named && is_assignment_operator(c.kind@)
}

/// Whether `kind` is a TypeScript-only node kind that lowering skips.
pub open spec fn spec_is_ts_type_node(kind: Seq<char>) -> bool {
    ||| kind == "type_annotation"@
    ||| kind == "type_parameters"@
    ||| kind == "type_arguments"@
    ||| kind == "interface_declaration"@
    ||| kind == "type_alias_declaration"@
    ||| kind == "enum_declaration"@
    ||| kind == "as_expression"@
    ||| kind == "satisfies_expression"@
    ||| kind == "non_null_expression"@
    ||| kind == "type_assertion"@
}

/// Whether `kind` is a TypeScript construct that only states or asserts a
/// type of an expression: `e as T`, `e satisfies T`, `e!` or `<T>e`.
pub open spec fn spec_is_ts_cast(kind: Seq<char>) -> bool {
    ||| kind == "as_expression"@
    ||| kind == "satisfies_expression"@
    ||| kind == "non_null_expression"@
    ||| kind == "type_assertion"@
}

/// Holds of the operand of `<T>e`: its named child that is not the type
/// argument list.
pub open spec fn is_assertion_operand() -> spec_fn(CstNode) -> bool {
    |c: CstNode| c.named && c.kind@ != "type_arguments"@
}

/// The operand of a type-only construct: the expression of `<T>e`, else the
/// first named child (the expression in `e as T`, `e satisfies T` and `e!`).
pub open spec fn cast_operand(node: CstNode) -> Option<CstNode> {
    if node.kind@ == "type_assertion"@ {
        find_child(node, is_assertion_operand())
    } else {
        first_named(node)
    }
}

/// The operand of a type-only construct lies inside it.
pub proof fn lemma_cast_operand(node: CstNode)
    ensures
        cast_operand(node) matches Some(c) ==> decreases_to!(node => c),
{
    lemma_find_child(node, is_assertion_operand());
    lemma_find_child(node, is_named());
}

/// The declaration kind and scope level of a `let`, `const` or `var` keyword.
pub open spec fn spec_decl_kind_and_scope(k: Seq<char>) -> (Option<DeclKind>, Option<ScopeLevel>) {
    if k == "let"@ {
        (Some(DeclKind::Let), Some(ScopeLevel::Block))
    } else if k == "const"@ {
        (Some(DeclKind::Const), Some(ScopeLevel::Block))
    } else if k == "var"@ {
        (Some(DeclKind::Var), Some(ScopeLevel::Function))
    } else {
        (None, None)
    }
}

/// Holds of an `optional_chain` child, by kind or by field name.
pub open spec fn is_optional_chain() -> spec_fn(CstNode) -> bool {
    |c: CstNode| c.kind@ == "optional_chain"@ || (c.field_name matches Some(n) && n@ == "optional_chain"@)
}

/// Whether a member access or call is written with `?.`.
pub open spec fn spec_has_optional_chain(node: CstNode) -> bool {
    any_child(node, is_optional_chain())
}

/// The accessibility modifier among `node.children[j..]`: the first child that
/// is a `public`/`private`/`protected` token or an `accessibility_modifier`
/// node decides.
pub open spec fn accessibility_from(node: CstNode, j: int) -> Option<Accessibility>
    decreases node.children@.len() - j,
{
    if j < 0 || j >= node.children@.len() {
        None
    } else {
        let c = node.children@[j];
        if !c.named && c.kind@ == "public"@ {
            Some(Accessibility::Public)
        } else if !c.named && c.kind@ == "private"@ {
            Some(Accessibility::Private)
        } else if !c.named && c.kind@ == "protected"@ {
            Some(Accessibility::Protected)
        } else if c.kind@ == "accessibility_modifier"@ {
            let t = match c.text {
                Some(t) => t@,
                None => Seq::empty(),
            };
            if t == "public"@ {
                Some(Accessibility::Public)
            } else if t == "private"@ {
                Some(Accessibility::Private)
            } else if t == "protected"@ {
                Some(Accessibility::Protected)
            } else {
                None
            }
        } else {
            accessibility_from(node, j + 1)
        }
    }
}

/// The accessibility modifier of a class member.
pub open spec fn spec_extract_accessibility(node: CstNode) -> Option<Accessibility> {
    accessibility_from(node, 0)
}

/// The concatenated text of the leaves under `node`, in order.
pub open spec fn spec_collect_text(node: CstNode) -> Seq<char>
    decreases node, 1int, 0int,
{
    match node.text {
        Some(t) => t@,
        None => collect_text_upto(node, node.children@.len() as int),
    }
}

/// The concatenated leaf text of the first `i` children of `node`.
pub open spec fn collect_text_upto(node: CstNode, i: int) -> Seq<char>
    decreases node, 0int, i,
{
    if i <= 0 || i > node.children@.len() {
        Seq::empty()
    } else {
        collect_text_upto(node, i - 1) + spec_collect_text(node.children@[i - 1])
    }
}

/// An opaque expression standing for a missing part, with no text.
pub open spec fn missing_expr(span: Span, kind: Seq<char>) -> SpecIrExpr {
    SpecIrExpr::Opaque(SpecOpaqueExpr { span, cst_kind: kind, text: Seq::empty() })
}

/// An empty block at `span`.
pub open spec fn empty_block(span: Span) -> SpecBlock {
    SpecBlock { span, body: Seq::empty() }
}

/// An empty object pattern at `span`.
pub open spec fn empty_object_pattern(span: Span) -> SpecPattern {
    SpecPattern::Object(SpecObjectPattern { span, properties: Seq::empty() })
}

/// Annotations with only a scope level and a declaration kind set.
pub open spec fn decl_annotations(scope_level: Option<ScopeLevel>, declaration_kind: Option<DeclKind>) -> Annotations {
    Annotations {
        scope_level,
        declaration_kind,
        is_async: false,
        is_generator: false,
        is_export: false,
        is_default: false,
    }
}

/// The value of a declarator, where it is an anonymous function, given the
/// name that the declarator binds (where it binds a plain name rather than a
/// pattern): `const foo = () => {}` is a function named `foo`.
pub open spec fn name_function_value(value: Option<SpecIrExpr>, name: Seq<char>, pattern: Option<SpecPattern>) -> Option<SpecIrExpr> {
    match value {
        Some(SpecIrExpr::FunctionExpr(f)) => {
            if f.name is None && pattern is None {
                Some(SpecIrExpr::FunctionExpr(SpecFunctionDecl { name: Some(name), ..f }))
            } else {
                value
            }
        },
        _ => value,
    }
}

/// The superclass named in a class's heritage clause: the expression after
/// `extends` (in TypeScript, the value of the `extends_clause`); none where
/// the clause only implements interfaces.
pub open spec fn heritage_superclass(h: CstNode) -> Option<CstNode> {
    match first_named(h) {
        Some(e) => {
            if e.kind@ == "extends_clause"@ {
                first_named(e)
            } else if e.kind@ == "implements_clause"@ {
                None
            } else {
                Some(e)
            }
        },
        None => None,
    }
}

/// The superclass of a heritage clause lies inside it.
pub proof fn lemma_heritage_superclass(h: CstNode)
    ensures
        heritage_superclass(h) matches Some(s) ==> decreases_to!(h => s),
{
    lemma_find_child(h, is_named());
    if let Some(e) = first_named(h) {
        lemma_find_child(e, is_named());
    }
}

/// The same node, marked as exported where it is a variable declaration.
pub open spec fn mark_exported(n: SpecIrNode) -> SpecIrNode {
    match n {
        SpecIrNode::VariableDecl(v) => SpecIrNode::VariableDecl(
            SpecVariableDecl { annotations: Annotations { is_export: true, ..v.annotations }, ..v },
        ),
        _ => n,
    }
}

/// The same nodes, each variable declaration marked as exported.
pub open spec fn mark_all_exported(s: Seq<SpecIrNode>) -> Seq<SpecIrNode> {
    s.map_values(|n: SpecIrNode| mark_exported(n))
}

/// The same node, marked as exported (and default-exported where `is_default`)
/// where it is a function or class declaration.
pub open spec fn mark_declaration_exported(n: SpecIrNode, is_default: bool) -> SpecIrNode {
    match n {
        SpecIrNode::FunctionDecl(f) => SpecIrNode::FunctionDecl(
            SpecFunctionDecl {
                annotations: Annotations { is_export: true, is_default, ..f.annotations },
                ..f
            },
        ),
        SpecIrNode::ClassDecl(c) => SpecIrNode::ClassDecl(
            SpecClassDecl {
                annotations: Annotations { is_export: true, is_default, ..c.annotations },
                ..c
            },
        ),
        _ => n,
    }
}

/// The state of a left-to-right scan over the children of an array literal
/// or array pattern.
pub struct ArrayScan<T> {
    pub elements: Seq<Option<T>>,
    pub prev_was_comma: bool,
    pub first: bool,
    pub done: bool,
}

/// One step of the array scan: `[` starts, `]` ends, a comma that follows
/// `[` or another comma is a hole, and a named child is an element.
pub open spec fn array_scan_step<T>(s: ArrayScan<T>, c: CstNode, element: T) -> ArrayScan<T> {
    if s.done {
        s
    } else if c.kind@ == "["@ {
        ArrayScan { first: true, ..s }
    } else if c.kind@ == "]"@ {
        ArrayScan { done: true, ..s }
    } else if c.kind@ == ","@ {
        ArrayScan {
            elements: if s.first || s.prev_was_comma {
                s.elements.push(None)
            } else {
                s.elements
            },
            prev_was_comma: true,
            first: false,
            done: false,
        }
    } else if !c.named {
        s
    } else {
        ArrayScan {
            elements: s.elements.push(Some(element)),
            prev_was_comma: false,
            first: false,
            done: false,
        }
    }
}

/// The state before the array scan.
pub open spec fn array_scan_start<T>() -> ArrayScan<T> {
    ArrayScan { elements: Seq::empty(), prev_was_comma: false, first: true, done: false }
}

/// The spec-level state of a lowering run: the language and the source text.
pub struct LowererModel {
    pub language: Language,
    pub source: Seq<char>,
}

impl LowererModel {
    // ── Text ─────────────────────────────────────────────────────────

    /// The text of a node: its own leaf text; else the source between its
    /// byte offsets, when the source is non-empty and the offsets delimit
    /// characters of it; else its concatenated leaf text.
    pub open spec fn spec_node_text(&self, node: CstNode) -> Seq<char> {
        match node.text {
            Some(t) => t@,
            None => {
                let slice = utf8_slice(
                    self.source,
                    node.span.start.offset as int,
                    node.span.end.offset as int,
                );
                if self.source.len() > 0 && slice is Some {
                    slice->0
                } else {
                    spec_collect_text(node)
                }
            },
        }
    }

    /// The text of an optional node, or the empty string.
    pub open spec fn text_or_empty(&self, n: Option<CstNode>) -> Seq<char> {
        match n {
            Some(n) => self.spec_node_text(n),
            None => Seq::empty(),
        }
    }

    /// The text of an optional node.
    pub open spec fn text_of(&self, n: Option<CstNode>) -> Option<Seq<char>> {
        match n {
            Some(n) => Some(self.spec_node_text(n)),
            None => None,
        }
    }

    /// An opaque statement keeping the kind and text of `node`.
    pub open spec fn opaque_node(&self, node: CstNode) -> SpecIrNode {
        SpecIrNode::Opaque(
            SpecOpaqueNode { span: node.span, cst_kind: node.kind@, text: self.spec_node_text(node) },
        )
    }

    /// An opaque expression keeping the kind and text of `node`.
    pub open spec fn opaque_expr(&self, node: CstNode) -> SpecIrExpr {
        SpecIrExpr::Opaque(
            SpecOpaqueExpr { span: node.span, cst_kind: node.kind@, text: self.spec_node_text(node) },
        )
    }

    // ── Dispatchers ──────────────────────────────────────────────────

    /// The statements that the children of `parent` lower to.
    pub open spec fn spec_lower_children(&self, parent: CstNode) -> Seq<SpecIrNode> {
        self.lower_children_upto(parent, parent.children@.len() as int)
    }

    /// The statements that the first `i` children of `parent` lower to. A
    /// variable declaration contributes one node per declarator; so does an
    /// export of one, marked as exported.
    pub open spec fn lower_children_upto(&self, parent: CstNode, i: int) -> Seq<SpecIrNode>
        decreases parent, 7int, i,
    {
        if i <= 0 || i > parent.children@.len() {
            Seq::empty()
        } else {
            let prev = self.lower_children_upto(parent, i - 1);
            let c = parent.children@[i - 1];
            if c.kind@ == "lexical_declaration"@ || c.kind@ == "variable_declaration"@ {
                prev + self.spec_lower_variable_declaration(c)
            } else if c.kind@ == "export_statement"@ && find_child(c, is_variable_declaration()) is Some {
                let d = find_child(c, is_variable_declaration())->0;
                proof {
                    lemma_find_child(c, is_variable_declaration());
                }
                prev + mark_all_exported(self.spec_lower_variable_declaration(d))
            } else {
                match self.spec_lower_node(c) {
                    Some(n) => prev.push(n),
                    None => prev,
                }
            }
        }
    }

    /// The statement that `node` lowers to, if any.
    pub open spec fn spec_lower_node(&self, node: CstNode) -> Option<SpecIrNode>
        decreases node, 11int, 0int,
    {
        let k = node.kind@;
        if !node.named {
            None
        } else if self.language != Language::JavaScript && spec_is_ts_type_node(k) {
            None
        } else if k == "lexical_declaration"@ || k == "variable_declaration"@ {
            let v = self.spec_lower_variable_declaration(node);
            if v.len() > 0 {
                Some(v[0])
            } else {
                None
            }
        } else if k == "function_declaration"@ || k == "generator_function_declaration"@ {
            Some(self.spec_lower_function_declaration(node))
        } else if k == "class_declaration"@ {
            Some(self.spec_lower_class_declaration(node))
        } else if k == "import_statement"@ {
            Some(self.spec_lower_import_declaration(node))
        } else if k == "export_statement"@ {
            Some(self.spec_lower_export_declaration(node))
        } else if k == "if_statement"@ {
            Some(self.spec_lower_if_statement(node))
        } else if k == "for_statement"@ {
            Some(self.spec_lower_for_statement(node))
        } else if k == "for_in_statement"@ || k == "for_of_statement"@ {
            Some(self.spec_lower_for_in_statement(node))
        } else if k == "while_statement"@ {
            Some(self.spec_lower_while_statement(node))
        } else if k == "do_statement"@ {
            Some(self.spec_lower_do_while_statement(node))
        } else if k == "switch_statement"@ {
            Some(self.spec_lower_switch_statement(node))
        } else if k == "try_statement"@ {
            Some(self.spec_lower_try_statement(node))
        } else if k == "return_statement"@ {
            Some(self.spec_lower_return_statement(node))
        } else if k == "throw_statement"@ {
            Some(self.spec_lower_throw_statement(node))
        } else if k == "break_statement"@ {
            Some(self.spec_lower_break_statement(node))
        } else if k == "continue_statement"@ {
            Some(self.spec_lower_continue_statement(node))
        } else if k == "labeled_statement"@ {
            Some(self.spec_lower_labeled_statement(node))
        } else if k == "method_definition"@ {
            Some(self.spec_lower_method_definition(node))
        } else if k == "field_definition"@ || k == "public_field_definition"@ {
            Some(self.spec_lower_property_definition(node))
        } else if k == "expression_statement"@ {
            match first_named(node) {
                Some(c) => {
                    proof {
                        lemma_find_child(node, is_named());
                    }
                    Some(
                        SpecIrNode::ExpressionStatement(
                            SpecExpressionStatement {
                                span: node.span,
                                expression: self.spec_lower_expression(c),
                            },
                        ),
                    )
                },
                None => None,
            }
        } else if k == "statement_block"@ {
            Some(SpecIrNode::Block(self.spec_lower_block(node)))
        } else if k == "empty_statement"@ || k == "comment"@ {
            None
        } else {
            Some(self.opaque_node(node))
        }
    }

    /// The expression that `node` lowers to.
    pub open spec fn spec_lower_expression(&self, node: CstNode) -> SpecIrExpr
        decreases node, 11int, 0int,
    {
        let k = node.kind@;
        if self.language != Language::JavaScript && spec_is_ts_cast(k) {
            match cast_operand(node) {
                Some(c) => {
                    proof {
                        lemma_cast_operand(node);
                    }
                    self.spec_lower_expression(c)
                },
                None => self.opaque_expr(node),
            }
        } else if self.language != Language::JavaScript && spec_is_ts_type_node(k) {
            self.opaque_expr(node)
        } else if k == "assignment_expression"@ || k == "augmented_assignment_expression"@ {
            self.spec_lower_assignment_expression(node)
        } else if k == "call_expression"@ {
            self.spec_lower_call_expression(node)
        } else if k == "member_expression"@ {
            self.spec_lower_member_expression(node)
        } else if k == "subscript_expression"@ {
            self.spec_lower_subscript_expression(node)
        } else if k == "binary_expression"@ {
            self.spec_lower_binary_expression(node)
        } else if k == "identifier"@ || k == "shorthand_property_identifier"@ || k
            == "property_identifier"@ || k == "this"@ || k == "super"@ {
            self.spec_lower_identifier(node)
        } else if k == "number"@ {
            self.spec_lower_number_literal(node)
        } else if k == "string"@ {
            self.spec_lower_string_literal(node)
        } else if k == "template_string"@ {
            self.spec_lower_template_string(node)
        } else if k == "true"@ || k == "false"@ {
            spec_lower_boolean_literal(node)
        } else if k == "null"@ {
            spec_lower_null_literal(node)
        } else if k == "undefined"@ {
            spec_lower_undefined(node)
        } else if k == "unary_expression"@ {
            self.spec_lower_unary_expression(node)
        } else if k == "update_expression"@ {
            self.spec_lower_update_expression(node)
        } else if k == "ternary_expression"@ {
            self.spec_lower_conditional_expression(node)
        } else if k == "arrow_function"@ {
            self.spec_lower_arrow_function(node)
        } else if k == "function_expression"@ || k == "generator_function"@ {
            self.spec_lower_function_expression(node)
        } else if k == "new_expression"@ {
            self.spec_lower_new_expression(node)
        } else if k == "await_expression"@ {
            self.spec_lower_await_expression(node)
        } else if k == "yield_expression"@ {
            self.spec_lower_yield_expression(node)
        } else if k == "spread_element"@ {
            self.spec_lower_spread_expression(node)
        } else if k == "array"@ {
            self.spec_lower_array_expression(node)
        } else if k == "object"@ {
            self.spec_lower_object_expression(node)
        } else if k == "parenthesized_expression"@ {
            match first_named(node) {
                Some(c) => {
                    proof {
                        lemma_find_child(node, is_named());
                    }
                    self.spec_lower_expression(c)
                },
                None => self.opaque_expr(node),
            }
        } else {
            self.opaque_expr(node)
        }
    }

    /// The block that `node`'s children lower to.
    pub open spec fn spec_lower_block(&self, node: CstNode) -> SpecBlock
        decreases node, 8int, 0int,
    {
        SpecBlock { span: node.span, body: self.lower_children_upto(node, node.children@.len() as int) }
    }

    /// A statement block lowered as a block; any other statement wrapped in one.
    pub open spec fn spec_lower_block_or_wrap(&self, node: CstNode) -> SpecBlock
        decreases node, 12int, 0int,
    {
        if node.kind@ == "statement_block"@ {
            self.spec_lower_block(node)
        } else {
            SpecBlock {
                span: node.span,
                body: match self.spec_lower_node(node) {
                    Some(n) => seq![n],
                    None => Seq::empty(),
                },
            }
        }
    }

    /// A condition: the expression inside `node` (its first named child, as
    /// in a parenthesized condition), or `node` itself.
    pub open spec fn lower_condition(&self, node: CstNode) -> SpecIrExpr
        decreases node, 13int, 0int,
    {
        match first_named(node) {
            Some(inner) => {
                proof {
                    lemma_find_child(node, is_named());
                }
                self.spec_lower_expression(inner)
            },
            None => self.spec_lower_expression(node),
        }
    }

    /// A property key: the expression of a computed key, or the key itself.
    pub open spec fn lower_key(&self, node: CstNode) -> SpecIrExpr
        decreases node, 14int, 0int,
    {
        if node.kind@ == "computed_property_name"@ {
            self.lower_condition(node)
        } else {
            self.spec_lower_expression(node)
        }
    }

    /// The expression of the child with field name `f`, if there is one.
    pub open spec fn opt_field_expression(&self, node: CstNode, f: Seq<char>) -> Option<SpecIrExpr>
        decreases node, 2int, 0int,
    {
        proof {
            lemma_find_child(node, has_field(f));
        }
        match field_child(node, f) {
            Some(c) => Some(self.spec_lower_expression(c)),
            None => None,
        }
    }

    /// The expression of the first named child, if there is one.
    pub open spec fn opt_first_named_expression(&self, node: CstNode) -> Option<SpecIrExpr>
        decreases node, 2int, 0int,
    {
        proof {
            lemma_find_child(node, is_named());
        }
        match first_named(node) {
            Some(c) => Some(self.spec_lower_expression(c)),
            None => None,
        }
    }

    /// The expression of the child with field name `f`, or an opaque
    /// expression of kind `missing` where there is none.
    pub open spec fn field_expr_or_missing(&self, node: CstNode, f: Seq<char>, missing: Seq<char>) -> Box<SpecIrExpr>
        decreases node, 3int, 0int,
    {
        Box::new(
            match self.opt_field_expression(node, f) {
                Some(e) => e,
                None => missing_expr(node.span, missing),
            },
        )
    }

    /// The expression of the first named child, or an opaque expression of
    /// kind `missing` where there is none.
    pub open spec fn first_named_expr_or_missing(&self, node: CstNode, missing: Seq<char>) -> Box<SpecIrExpr>
        decreases node, 3int, 0int,
    {
        Box::new(
            match self.opt_first_named_expression(node) {
                Some(e) => e,
                None => missing_expr(node.span, missing),
            },
        )
    }

    /// The statement of the child with field name `f`, if there is one and
    /// it lowers to one.
    pub open spec fn opt_field_node(&self, node: CstNode, f: Seq<char>) -> Option<Box<SpecIrNode>>
        decreases node, 2int, 0int,
    {
        proof {
            lemma_find_child(node, has_field(f));
        }
        match field_child(node, f) {
            Some(c) => match self.spec_lower_node(c) {
                Some(x) => Some(Box::new(x)),
                None => None,
            },
            None => None,
        }
    }

    /// The block of the child with field name `f`, or an empty block at the
    /// span of `node`.
    pub open spec fn field_block_or_empty(&self, node: CstNode, f: Seq<char>) -> SpecBlock
        decreases node, 2int, 0int,
    {
        proof {
            lemma_find_child(node, has_field(f));
        }
        match field_child(node, f) {
            Some(b) => self.spec_lower_block(b),
            None => empty_block(node.span),
        }
    }

    /// The name and destructuring pattern in the child with field name `f`:
    /// a pattern for an object or array pattern, else the child's text.
    pub open spec fn field_name_and_pattern(&self, node: CstNode, f: Seq<char>) -> (Seq<char>, Option<SpecPattern>)
        decreases node, 2int, 0int,
    {
        proof {
            lemma_find_child(node, has_field(f));
        }
        match field_child(node, f) {
            Some(c) => {
                if c.kind@ == "object_pattern"@ || c.kind@ == "array_pattern"@ {
                    (Seq::empty(), Some(self.spec_lower_pattern(c)))
                } else {
                    (self.spec_node_text(c), None)
                }
            },
            None => (Seq::empty(), None),
        }
    }

    /// The key in the child with field name `f`, or an opaque expression of
    /// kind `missing` where there is none.
    pub open spec fn field_key(&self, node: CstNode, f: Seq<char>, missing: Seq<char>) -> SpecIrExpr
        decreases node, 2int, 0int,
    {
        proof {
            lemma_find_child(node, has_field(f));
        }
        match field_child(node, f) {
            Some(c) => self.lower_key(c),
            None => missing_expr(node.span, missing),
        }
    }

    /// The arguments in the child with field name `f`.
    pub open spec fn field_arguments(&self, node: CstNode, f: Seq<char>) -> Seq<SpecIrExpr>
        decreases node, 2int, 0int,
    {
        proof {
            lemma_find_child(node, has_field(f));
        }
        match field_child(node, f) {
            Some(a) => self.named_exprs_upto(a, a.children@.len() as int),
            None => Seq::empty(),
        }
    }

    // ── Control flow ─────────────────────────────────────────────────

    /// An `if` statement; without a condition it is kept opaque.
    pub open spec fn spec_lower_if_statement(&self, node: CstNode) -> SpecIrNode
        decreases node, 9int, 0int,
    {
        proof {
            lemma_find_child(node, has_field("condition"@));
            lemma_find_child(node, has_field("consequence"@));
            lemma_find_child(node, has_field("alternative"@));
        }
        match field_child(node, "condition"@) {
            None => self.opaque_node(node),
            Some(c) => {
                let condition = self.lower_condition(c);
                let consequent = match field_child(node, "consequence"@) {
                    Some(b) => self.spec_lower_block_or_wrap(b),
                    None => empty_block(node.span),
                };
                let alternate = match field_child(node, "alternative"@) {
                    Some(alt) => {
                        if alt.kind@ == "else_clause"@ {
                            match first_named(alt) {
                                Some(inner) => {
                                    proof {
                                        lemma_find_child(alt, is_named());
                                    }
                                    self.spec_lower_node(inner)
                                },
                                None => None,
                            }
                        } else {
                            self.spec_lower_node(alt)
                        }
                    },
                    None => None,
                };
                SpecIrNode::If(
                    SpecIfStmt {
                        span: node.span,
                        condition,
                        consequent,
                        alternate: match alternate {
                            Some(a) => Some(Box::new(a)),
                            None => None,
                        },
                    },
                )
            },
        }
    }

    /// The body of a loop: the `body` child as a block, or an empty block.
    pub open spec fn loop_body(&self, node: CstNode) -> SpecBlock
        decreases node, 2int, 0int,
    {
        proof {
            lemma_find_child(node, has_field("body"@));
        }
        match field_child(node, "body"@) {
            Some(b) => self.spec_lower_block_or_wrap(b),
            None => empty_block(node.span),
        }
    }

    /// A C-style `for` loop.
    pub open spec fn spec_lower_for_statement(&self, node: CstNode) -> SpecIrNode
        decreases node, 9int, 0int,
    {
        proof {
            lemma_find_child(node, has_field("initializer"@));
            lemma_find_child(node, has_field("condition"@));
            lemma_find_child(node, has_field("increment"@));
        }
        SpecIrNode::For(
            SpecForStmt {
                span: node.span,
                init: self.opt_field_node(node, "initializer"@),
                condition: self.opt_field_expression(node, "condition"@),
                update: self.opt_field_expression(node, "increment"@),
                body: self.loop_body(node),
                annotations: ForAnnotations { kind: ForKind::Standard },
            },
        )
    }

    /// A `for..in` or `for..of` loop: the left side as `init`, the right side
    /// as `condition`; it is `for..of` where the node is a `for_of_statement`
    /// or has an `of` child.
    pub open spec fn spec_lower_for_in_statement(&self, node: CstNode) -> SpecIrNode
        decreases node, 9int, 0int,
    {
        proof {
            lemma_find_child(node, has_field("left"@));
            lemma_find_child(node, has_field("right"@));
        }
        let is_of = node.kind@ == "for_of_statement"@ || any_child(node, kind_is("of"@));
        SpecIrNode::For(
            SpecForStmt {
                span: node.span,
                init: self.opt_field_node(node, "left"@),
                condition: self.opt_field_expression(node, "right"@),
                update: None,
                body: self.loop_body(node),
                annotations: ForAnnotations {
                    kind: if is_of {
                        ForKind::Of
                    } else {
                        ForKind::In
                    },
                },
            },
        )
    }

    /// A `while` (or, with `is_do_while`, a `do..while`) loop; without a
    /// condition it is kept opaque.
    pub open spec fn lower_while_like(&self, node: CstNode, is_do_while: bool) -> SpecIrNode
        decreases node, 9int, 0int,
    {
        proof {
            lemma_find_child(node, has_field("condition"@));
        }
        match field_child(node, "condition"@) {
            None => self.opaque_node(node),
            Some(c) => SpecIrNode::While(
                SpecWhileStmt {
                    span: node.span,
                    condition: self.lower_condition(c),
                    body: self.loop_body(node),
                    is_do_while,
                },
            ),
        }
    }

    /// A `while` loop.
    pub open spec fn spec_lower_while_statement(&self, node: CstNode) -> SpecIrNode
        decreases node, 10int, 0int,
    {
        self.lower_while_like(node, false)
    }

    /// A `do..while` loop.
    pub open spec fn spec_lower_do_while_statement(&self, node: CstNode) -> SpecIrNode
        decreases node, 10int, 0int,
    {
        self.lower_while_like(node, true)
    }

    /// A `switch` statement; without a discriminant it is kept opaque.
    pub open spec fn spec_lower_switch_statement(&self, node: CstNode) -> SpecIrNode
        decreases node, 9int, 0int,
    {
        proof {
            lemma_find_child(node, has_field("value"@));
            lemma_find_child(node, has_field("body"@));
        }
        match field_child(node, "value"@) {
            None => self.opaque_node(node),
            Some(d) => SpecIrNode::Switch(
                SpecSwitchStmt {
                    span: node.span,
                    discriminant: self.lower_condition(d),
                    cases: match field_child(node, "body"@) {
                        Some(b) => self.switch_cases_upto(b, b.children@.len() as int),
                        None => Seq::empty(),
                    },
                },
            ),
        }
    }

    /// The `case` and `default` clauses among the first `i` children of a
    /// switch body.
    pub open spec fn switch_cases_upto(&self, body: CstNode, i: int) -> Seq<SpecSwitchCase>
        decreases body, 4int, i,
    {
        if i <= 0 || i > body.children@.len() {
            Seq::empty()
        } else {
            let prev = self.switch_cases_upto(body, i - 1);
            let c = body.children@[i - 1];
            if c.kind@ == "switch_case"@ || c.kind@ == "switch_default"@ {
                prev.push(self.spec_lower_switch_case(c))
            } else {
                prev
            }
        }
    }

    /// A `case` or `default` clause.
    pub open spec fn spec_lower_switch_case(&self, node: CstNode) -> SpecSwitchCase
        decreases node, 9int, 0int,
    {
        proof {
            lemma_find_child(node, has_field("value"@));
        }
        SpecSwitchCase {
            span: node.span,
            test: if node.kind@ == "switch_default"@ {
                None
            } else {
                self.opt_field_expression(node, "value"@)
            },
            body: self.case_body_upto(node, node.children@.len() as int),
        }
    }

    /// The statements that the first `i` children of a clause lower to,
    /// leaving out tokens and the `value` child.
    pub open spec fn case_body_upto(&self, node: CstNode, i: int) -> Seq<SpecIrNode>
        decreases node, 4int, i,
    {
        if i <= 0 || i > node.children@.len() {
            Seq::empty()
        } else {
            let prev = self.case_body_upto(node, i - 1);
            let c = node.children@[i - 1];
            if c.named && !(c.field_name matches Some(f) && f@ == "value"@) {
                match self.spec_lower_node(c) {
                    Some(n) => prev.push(n),
                    None => prev,
                }
            } else {
                prev
            }
        }
    }

    /// A `try` statement.
    pub open spec fn spec_lower_try_statement(&self, node: CstNode) -> SpecIrNode
        decreases node, 9int, 0int,
    {
        proof {
            lemma_find_child(node, has_field("body"@));
            lemma_find_child(node, has_field("handler"@));
            lemma_find_child(node, has_field("finalizer"@));
        }
        SpecIrNode::TryCatch(
            SpecTryCatchStmt {
                span: node.span,
                try_block: self.field_block_or_empty(node, "body"@),
                catch_clause: match field_child(node, "handler"@) {
                    Some(h) => Some(self.spec_lower_catch_clause(h)),
                    None => None,
                },
                finally_block: match field_child(node, "finalizer"@) {
                    Some(f) => Some(self.spec_lower_block(f)),
                    None => None,
                },
            },
        )
    }

    /// A `catch` clause: the parameter's text (of its first named child, if
    /// any) and the body.
    pub open spec fn spec_lower_catch_clause(&self, node: CstNode) -> SpecCatchClause
        decreases node, 9int, 0int,
    {
        proof {
            lemma_find_child(node, has_field("body"@));
        }
        SpecCatchClause {
            span: node.span,
            param: match field_child(node, "parameter"@) {
                Some(p) => match first_named(p) {
                    Some(q) => Some(self.spec_node_text(q)),
                    None => Some(self.spec_node_text(p)),
                },
                None => None,
            },
            body: self.field_block_or_empty(node, "body"@),
        }
    }

    /// A `return` statement.
    pub open spec fn spec_lower_return_statement(&self, node: CstNode) -> SpecIrNode
        decreases node, 9int, 0int,
    {
        proof {
            lemma_find_child(node, is_named());
        }
        SpecIrNode::Return(
            SpecReturnStmt {
                span: node.span,
                value: self.opt_first_named_expression(node),
            },
        )
    }

    /// A `throw` statement.
    pub open spec fn spec_lower_throw_statement(&self, node: CstNode) -> SpecIrNode
        decreases node, 9int, 0int,
    {
        proof {
            lemma_find_child(node, is_named());
        }
        SpecIrNode::Throw(
            SpecThrowStmt {
                span: node.span,
                argument: match self.opt_first_named_expression(node) {
                    Some(e) => e,
                    None => missing_expr(node.span, "missing_throw_argument"@),
                },
            },
        )
    }

    /// A `break` statement.
    pub open spec fn spec_lower_break_statement(&self, node: CstNode) -> SpecIrNode {
        SpecIrNode::Break(
            SpecBreakStmt { span: node.span, label: self.text_of(field_child(node, "label"@)) },
        )
    }

    /// A `continue` statement.
    pub open spec fn spec_lower_continue_statement(&self, node: CstNode) -> SpecIrNode {
        SpecIrNode::Continue(
            SpecContinueStmt { span: node.span, label: self.text_of(field_child(node, "label"@)) },
        )
    }

    /// A labeled statement: the label's text and the body as a block.
    pub open spec fn spec_lower_labeled_statement(&self, node: CstNode) -> SpecIrNode
        decreases node, 9int, 0int,
    {
        SpecIrNode::Labeled(
            SpecLabeledStmt {
                span: node.span,
                label: self.text_or_empty(field_child(node, "label"@)),
                body: self.loop_body(node),
            },
        )
    }

    // ── Declarations ─────────────────────────────────────────────────

    /// A `let`, `const` or `var` declaration: one variable declaration per
    /// declarator, or one without a name where there is no declarator.
    pub open spec fn spec_lower_variable_declaration(&self, node: CstNode) -> Seq<SpecIrNode>
        decreases node, 9int, 0int,
    {
        let keyword = match find_child(node, is_decl_keyword()) {
            Some(c) => c.kind@,
            None => Seq::empty(),
        };
        let (decl_kind, scope_level) = spec_decl_kind_and_scope(keyword);
        let ann = decl_annotations(scope_level, decl_kind);
        let nodes = self.declarators_upto(node, node.children@.len() as int, ann);
        if nodes.len() == 0 {
            seq![
                SpecIrNode::VariableDecl(
                    SpecVariableDecl {
                        span: node.span,
                        name: Seq::empty(),
                        value: None,
                        pattern: None,
                        annotations: ann,
                    },
                ),
            ]
        } else {
            nodes
        }
    }

    /// The variable declarations of the declarators among the first `i`
    /// children of `node`.
    pub open spec fn declarators_upto(&self, node: CstNode, i: int, ann: Annotations) -> Seq<SpecIrNode>
        decreases node, 4int, i,
    {
        if i <= 0 || i > node.children@.len() {
            Seq::empty()
        } else {
            let prev = self.declarators_upto(node, i - 1, ann);
            let d = node.children@[i - 1];
            if d.kind@ == "variable_declarator"@ {
                proof {
                    lemma_find_child(d, has_field("name"@));
                    lemma_find_child(d, has_field("value"@));
                }
                let (name, pattern) = self.field_name_and_pattern(d, "name"@);
                prev.push(
                    SpecIrNode::VariableDecl(
                        SpecVariableDecl {
                            span: d.span,
                            name,
                            value: name_function_value(self.opt_field_expression(d, "value"@), name, pattern),
                            pattern,
                            annotations: ann,
                        },
                    ),
                )
            } else {
                prev
            }
        }
    }

    /// A function declaration.
    pub open spec fn spec_lower_function_declaration(&self, node: CstNode) -> SpecIrNode
        decreases node, 9int, 0int,
    {
        proof {
            lemma_find_child(node, has_field("body"@));
        }
        SpecIrNode::FunctionDecl(
            SpecFunctionDecl {
                span: node.span,
                name: self.text_of(field_child(node, "name"@)),
                params: self.spec_lower_formal_parameters(node),
                body: self.field_block_or_empty(node, "body"@),
                annotations: Annotations {
                    scope_level: Some(ScopeLevel::Module),
                    declaration_kind: Some(DeclKind::Function),
                    is_async: any_child(node, kind_is("async"@)),
                    is_generator: any_child(node, kind_is("*"@)),
                    is_export: false,
                    is_default: false,
                },
                is_arrow: false,
            },
        )
    }

    /// The parameters in the `parameters` child of a function.
    pub open spec fn spec_lower_formal_parameters(&self, node: CstNode) -> Seq<SpecParam>
        decreases node, 8int, 0int,
    {
        proof {
            lemma_find_child(node, has_field("parameters"@));
        }
        match field_child(node, "parameters"@) {
            Some(p) => self.params_upto(p, p.children@.len() as int),
            None => Seq::empty(),
        }
    }

    /// The parameters among the first `i` named children of `p`.
    pub open spec fn params_upto(&self, p: CstNode, i: int) -> Seq<SpecParam>
        decreases p, 4int, i,
    {
        if i <= 0 || i > p.children@.len() {
            Seq::empty()
        } else {
            let prev = self.params_upto(p, i - 1);
            let c = p.children@[i - 1];
            if c.named {
                prev.push(self.spec_lower_param(c))
            } else {
                prev
            }
        }
    }

    /// One formal parameter. A TypeScript parameter is its pattern and its
    /// default value; its type annotation is left out.
    pub open spec fn spec_lower_param(&self, node: CstNode) -> SpecParam
        decreases node, 9int, 0int,
    {
        let k = node.kind@;
        if k == "object_pattern"@ || k == "array_pattern"@ {
            SpecParam {
                span: node.span,
                name: Seq::empty(),
                pattern: Some(self.spec_lower_pattern(node)),
                default_value: None,
            }
        } else if k == "assignment_pattern"@ {
            proof {
                lemma_find_child(node, has_field("left"@));
                lemma_find_child(node, has_field("right"@));
            }
            let (name, pattern) = self.field_name_and_pattern(node, "left"@);
            SpecParam {
                span: node.span,
                name,
                pattern,
                default_value: self.opt_field_expression(node, "right"@),
            }
        } else if k == "rest_pattern"@ {
            SpecParam {
                span: node.span,
                name: "..."@ + self.text_or_empty(first_named(node)),
                pattern: None,
                default_value: None,
            }
        } else if k == "required_parameter"@ || k == "optional_parameter"@ {
            proof {
                lemma_find_child(node, has_field("pattern"@));
                lemma_find_child(node, has_field("value"@));
            }
            let (name, pattern) = self.field_name_and_pattern(node, "pattern"@);
            SpecParam {
                span: node.span,
                name,
                pattern,
                default_value: self.opt_field_expression(node, "value"@),
            }
        } else {
            SpecParam { span: node.span, name: self.spec_node_text(node), pattern: None, default_value: None }
        }
    }

    /// A destructuring pattern.
    pub open spec fn spec_lower_pattern(&self, node: CstNode) -> SpecPattern
        decreases node, 6int, 0int,
    {
        let k = node.kind@;
        if k == "object_pattern"@ {
            self.spec_lower_object_pattern(node)
        } else if k == "array_pattern"@ {
            self.spec_lower_array_pattern(node)
        } else if k == "assignment_pattern"@ {
            proof {
                lemma_find_child(node, has_field("left"@));
                lemma_find_child(node, has_field("right"@));
            }
            SpecPattern::Assignment(
                SpecAssignmentPattern {
                    span: node.span,
                    left: Box::new(
                        match field_child(node, "left"@) {
                            Some(l) => self.spec_lower_pattern(l),
                            None => empty_object_pattern(node.span),
                        },
                    ),
                    right: match self.opt_field_expression(node, "right"@) {
                        Some(e) => e,
                        None => missing_expr(node.span, "missing_default"@),
                    },
                },
            )
        } else if k == "rest_pattern"@ {
            proof {
                lemma_find_child(node, is_named());
            }
            SpecPattern::Rest(
                SpecRestPattern {
                    span: node.span,
                    argument: Box::new(
                        match first_named(node) {
                            Some(n) => self.spec_lower_pattern(n),
                            None => empty_object_pattern(node.span),
                        },
                    ),
                },
            )
        } else if k == "identifier"@ {
            SpecPattern::Object(
                SpecObjectPattern {
                    span: node.span,
                    properties: seq![
                        SpecObjectPatternProperty::Shorthand(
                            SpecPatternShorthand {
                                span: node.span,
                                name: self.spec_node_text(node),
                                default_value: None,
                            },
                        ),
                    ],
                },
            )
        } else {
            SpecPattern::Opaque(
                SpecOpaqueExpr { span: node.span, cst_kind: k, text: self.spec_node_text(node) },
            )
        }
    }

    /// An object pattern.
    pub open spec fn spec_lower_object_pattern(&self, node: CstNode) -> SpecPattern
        decreases node, 5int, 0int,
    {
        SpecPattern::Object(
            SpecObjectPattern {
                span: node.span,
                properties: self.object_pattern_upto(node, node.children@.len() as int),
            },
        )
    }

    /// The properties that the first `i` children of an object pattern
    /// lower to; tokens and other kinds of children contribute none.
    pub open spec fn object_pattern_upto(&self, node: CstNode, i: int) -> Seq<SpecObjectPatternProperty>
        decreases node, 4int, i,
    {
        if i <= 0 || i > node.children@.len() {
            Seq::empty()
        } else {
            let prev = self.object_pattern_upto(node, i - 1);
            let c = node.children@[i - 1];
            let k = c.kind@;
            if !c.named {
                prev
            } else if k == "shorthand_property_identifier_pattern"@ {
                prev.push(
                    SpecObjectPatternProperty::Shorthand(
                        SpecPatternShorthand { span: c.span, name: self.spec_node_text(c), default_value: None },
                    ),
                )
            } else if k == "pair_pattern"@ {
                proof {
                    lemma_find_child(c, has_field("value"@));
                }
                prev.push(
                    SpecObjectPatternProperty::KeyValue(
                        SpecPatternKeyValue {
                            span: c.span,
                            key: self.text_or_empty(field_child(c, "key"@)),
                            value: match field_child(c, "value"@) {
                                Some(v) => self.spec_lower_pattern(v),
                                None => empty_object_pattern(c.span),
                            },
                        },
                    ),
                )
            } else if k == "rest_pattern"@ {
                prev.push(
                    SpecObjectPatternProperty::Rest(
                        SpecPatternRest { span: c.span, name: self.text_or_empty(first_named(c)) },
                    ),
                )
            } else if k == "assignment_pattern"@ || k == "object_assignment_pattern"@ {
                proof {
                    lemma_find_child(c, has_field("right"@));
                }
                prev.push(
                    SpecObjectPatternProperty::Shorthand(
                        SpecPatternShorthand {
                            span: c.span,
                            name: self.text_or_empty(field_child(c, "left"@)),
                            default_value: self.opt_field_expression(c, "right"@),
                        },
                    ),
                )
            } else {
                prev
            }
        }
    }

    /// An array pattern; `None` elements are holes.
    pub open spec fn spec_lower_array_pattern(&self, node: CstNode) -> SpecPattern
        decreases node, 5int, 0int,
    {
        SpecPattern::Array(
            SpecArrayPattern {
                span: node.span,
                elements: self.array_pattern_upto(node, node.children@.len() as int).elements,
            },
        )
    }

    /// The array scan over the first `i` children of an array pattern.
    pub open spec fn array_pattern_upto(&self, node: CstNode, i: int) -> ArrayScan<SpecPattern>
        decreases node, 4int, i,
    {
        if i <= 0 || i > node.children@.len() {
            array_scan_start()
        } else {
            let c = node.children@[i - 1];
            array_scan_step(self.array_pattern_upto(node, i - 1), c, self.spec_lower_pattern(c))
        }
    }

    /// A class declaration.
    pub open spec fn spec_lower_class_declaration(&self, node: CstNode) -> SpecIrNode
        decreases node, 9int, 0int,
    {
        proof {
            lemma_find_child(node, has_field("superclass"@));
            lemma_find_child(node, has_field("body"@));
        }
        let super_class = match find_child(node, has_field("superclass"@)) {
            Some(s) => Some(self.spec_lower_expression(s)),
            None => match find_child(node, kind_is("class_heritage"@)) {
                Some(h) => {
                    proof {
                        lemma_find_child(node, kind_is("class_heritage"@));
                        lemma_heritage_superclass(h);
                    }
                    match heritage_superclass(h) {
                        Some(s) => Some(self.spec_lower_expression(s)),
                        None => None,
                    }
                },
                None => None,
            },
        };
        SpecIrNode::ClassDecl(
            SpecClassDecl {
                span: node.span,
                name: self.text_of(field_child(node, "name"@)),
                super_class,
                body: match field_child(node, "body"@) {
                    Some(b) => self.lower_children_upto(b, b.children@.len() as int),
                    None => Seq::empty(),
                },
                annotations: decl_annotations(None, Some(DeclKind::Class)),
            },
        )
    }

    /// Whether child `n` is a computed property name.
    pub open spec fn is_computed(n: Option<CstNode>) -> bool {
        n matches Some(c) && c.kind@ == "computed_property_name"@
    }

    /// A method of a class body.
    pub open spec fn spec_lower_method_definition(&self, node: CstNode) -> SpecIrNode
        decreases node, 9int, 0int,
    {
        proof {
            lemma_find_child(node, has_field("name"@));
            lemma_find_child(node, has_field("body"@));
        }
        let name_node = field_child(node, "name"@);
        let kind = if any_child(node, token_is("get"@)) {
            MethodKind::Getter
        } else if any_child(node, token_is("set"@)) {
            MethodKind::Setter
        } else if self.text_of(name_node) == Some("constructor"@) {
            MethodKind::Constructor
        } else {
            MethodKind::Method
        };
        SpecIrNode::MethodDefinition(
            SpecMethodDefinition {
                span: node.span,
                key: self.field_key(node, "name"@, "missing_method_name"@),
                kind,
                params: self.spec_lower_formal_parameters(node),
                body: self.field_block_or_empty(node, "body"@),
                is_static: any_child(node, token_is("static"@)),
                computed: Self::is_computed(name_node),
                accessibility: spec_extract_accessibility(node),
                is_async: any_child(node, token_is("async"@)),
                is_generator: any_child(node, token_is("*"@)),
            },
        )
    }

    /// A field of a class body.
    pub open spec fn spec_lower_property_definition(&self, node: CstNode) -> SpecIrNode
        decreases node, 9int, 0int,
    {
        proof {
            lemma_find_child(node, has_field("property"@));
            lemma_find_child(node, has_field("value"@));
        }
        let name_node = field_child(node, "property"@);
        SpecIrNode::PropertyDefinition(
            SpecPropertyDefinition {
                span: node.span,
                key: self.field_key(node, "property"@, "missing_property_name"@),
                value: self.opt_field_expression(node, "value"@),
                is_static: any_child(node, token_is("static"@)),
                computed: Self::is_computed(name_node),
                accessibility: spec_extract_accessibility(node),
            },
        )
    }

    // ── Import / export ──────────────────────────────────────────────

    /// An `import` statement: its bindings and its module source.
    pub open spec fn spec_lower_import_declaration(&self, node: CstNode) -> SpecIrNode {
        SpecIrNode::ImportDecl(
            SpecImportDecl {
                span: node.span,
                specifiers: self.import_specifiers_upto(node, node.children@.len() as int),
                source: match field_child(node, "source"@) {
                    Some(s) => spec_strip_quotes(self.spec_node_text(s)),
                    None => Seq::empty(),
                },
            },
        )
    }

    /// A namespace import `* as ns`.
    pub open spec fn namespace_import(&self, n: CstNode) -> SpecImportSpecifier {
        SpecImportSpecifier::Namespace(
            SpecImportNamespace { span: n.span, local: self.text_or_empty(first_named(n)) },
        )
    }

    /// A default import binding.
    pub open spec fn default_import(&self, n: CstNode) -> SpecImportSpecifier {
        SpecImportSpecifier::Default(SpecImportDefault { span: n.span, local: self.spec_node_text(n) })
    }

    /// The bindings that the first `i` children of an import statement bring in.
    pub open spec fn import_specifiers_upto(&self, node: CstNode, i: int) -> Seq<SpecImportSpecifier>
        decreases i,
    {
        if i <= 0 || i > node.children@.len() {
            Seq::empty()
        } else {
            let prev = self.import_specifiers_upto(node, i - 1);
            let c = node.children@[i - 1];
            let k = c.kind@;
            if k == "identifier"@ {
                prev.push(self.default_import(c))
            } else if k == "import_clause"@ {
                prev + self.import_clause_upto(c, c.children@.len() as int)
            } else if k == "named_imports"@ {
                prev + self.named_imports_upto(c, c.children@.len() as int)
            } else if k == "namespace_import"@ {
                prev.push(self.namespace_import(c))
            } else {
                prev
            }
        }
    }

    /// The bindings that the first `i` children of an import clause bring in.
    pub open spec fn import_clause_upto(&self, node: CstNode, i: int) -> Seq<SpecImportSpecifier>
        decreases i,
    {
        if i <= 0 || i > node.children@.len() {
            Seq::empty()
        } else {
            let prev = self.import_clause_upto(node, i - 1);
            let c = node.children@[i - 1];
            let k = c.kind@;
            if k == "identifier"@ {
                prev.push(self.default_import(c))
            } else if k == "named_imports"@ {
                prev + self.named_imports_upto(c, c.children@.len() as int)
            } else if k == "namespace_import"@ {
                prev.push(self.namespace_import(c))
            } else {
                prev
            }
        }
    }

    /// The named imports among the first `i` children of `{ ... }`: the
    /// local name is the alias where there is one.
    pub open spec fn named_imports_upto(&self, node: CstNode, i: int) -> Seq<SpecImportSpecifier>
        decreases i,
    {
        if i <= 0 || i > node.children@.len() {
            Seq::empty()
        } else {
            let prev = self.named_imports_upto(node, i - 1);
            let c = node.children@[i - 1];
            if c.kind@ == "import_specifier"@ {
                let imported = self.text_or_empty(field_child(c, "name"@));
                prev.push(
                    SpecImportSpecifier::Named(
                        SpecImportNamed {
                            span: c.span,
                            imported,
                            local: match field_child(c, "alias"@) {
                                Some(a) => self.spec_node_text(a),
                                None => imported,
                            },
                        },
                    ),
                )
            } else {
                prev
            }
        }
    }

    /// The specifiers among the first `i` children of an export clause: the
    /// exported name is the alias where there is one.
    pub open spec fn export_specifiers_upto(&self, node: CstNode, i: int) -> Seq<SpecExportSpecifier>
        decreases i,
    {
        if i <= 0 || i > node.children@.len() {
            Seq::empty()
        } else {
            let prev = self.export_specifiers_upto(node, i - 1);
            let c = node.children@[i - 1];
            if c.kind@ == "export_specifier"@ {
                let local = self.text_or_empty(field_child(c, "name"@));
                prev.push(
                    SpecExportSpecifier {
                        span: c.span,
                        local,
                        exported: match field_child(c, "alias"@) {
                            Some(a) => self.spec_node_text(a),
                            None => local,
                        },
                    },
                )
            } else {
                prev
            }
        }
    }

    /// An `export` statement. An exported function or class declaration is
    /// lowered as that declaration, marked as exported; any other export
    /// becomes an export declaration.
    pub open spec fn spec_lower_export_declaration(&self, node: CstNode) -> SpecIrNode
        decreases node, 9int, 0int,
    {
        proof {
            lemma_find_child(node, is_function_or_class());
            lemma_find_child(node, is_default_export_candidate());
        }
        let is_default = any_child(node, token_is("default"@));
        match find_child(node, is_function_or_class()) {
            Some(decl) => match self.spec_lower_node(decl) {
                Some(inner) => mark_declaration_exported(inner, is_default),
                None => self.opaque_node(node),
            },
            None => {
                let listed = match find_child(node, kind_is("export_clause"@)) {
                    Some(ec) => self.export_specifiers_upto(ec, ec.children@.len() as int),
                    None => Seq::empty(),
                };
                let declaration = if is_default {
                    match find_child(node, is_default_export_candidate()) {
                        Some(c) => {
                            if c.kind@ != "comment"@ {
                                Some(
                                    Box::new(
                                        SpecIrNode::ExpressionStatement(
                                            SpecExpressionStatement {
                                                span: c.span,
                                                expression: self.spec_lower_expression(c),
                                            },
                                        ),
                                    ),
                                )
                            } else {
                                None
                            }
                        },
                        None => None,
                    }
                } else {
                    None
                };
                let specifiers = if any_child(node, token_is("*"@)) {
                    listed.push(SpecExportSpecifier { span: node.span, local: "*"@, exported: "*"@ })
                } else {
                    listed
                };
                SpecIrNode::ExportDecl(
                    SpecExportDecl {
                        span: node.span,
                        declaration,
                        specifiers,
                        source: match field_child(node, "source"@) {
                            Some(s) => Some(spec_strip_quotes(self.spec_node_text(s))),
                            None => None,
                        },
                        is_default,
                    },
                )
            },
        }
    }

    // ── Expressions ──────────────────────────────────────────────────

    /// An assignment; the operator is the first assignment operator token,
    /// `=` where there is none.
    pub open spec fn spec_lower_assignment_expression(&self, node: CstNode) -> SpecIrExpr
        decreases node, 9int, 0int,
    {
        proof {
            lemma_find_child(node, has_field("left"@));
            lemma_find_child(node, has_field("right"@));
        }
        SpecIrExpr::Assignment(
            SpecAssignment {
                span: node.span,
                target: self.field_expr_or_missing(node, "left"@, "missing_left"@),
                operator: match find_child(node, is_assignment_token()) {
                    Some(c) => c.kind@,
                    None => "="@,
                },
                value: self.field_expr_or_missing(node, "right"@, "missing_right"@),
            },
        )
    }

    /// The expressions of the first `i` named children of an argument list,
    /// comments left out.
    pub open spec fn named_exprs_upto(&self, node: CstNode, i: int) -> Seq<SpecIrExpr>
        decreases node, 4int, i,
    {
        if i <= 0 || i > node.children@.len() {
            Seq::empty()
        } else {
            let prev = self.named_exprs_upto(node, i - 1);
            let c = node.children@[i - 1];
            if c.named && c.kind@ != "comment"@ {
                prev.push(self.spec_lower_expression(c))
            } else {
                prev
            }
        }
    }

    /// A call; one whose arguments are a template string is a tagged template.
    pub open spec fn spec_lower_call_expression(&self, node: CstNode) -> SpecIrExpr
        decreases node, 9int, 0int,
    {
        proof {
            lemma_find_child(node, has_field("function"@));
            lemma_find_child(node, has_field("arguments"@));
        }
        let callee = self.field_expr_or_missing(node, "function"@, "missing_callee"@);
        let args = field_child(node, "arguments"@);
        if args matches Some(a) && a.kind@ == "template_string"@ {
            SpecIrExpr::TaggedTemplate(
                SpecTaggedTemplate {
                    span: node.span,
                    tag: callee,
                    quasi: Box::new(self.spec_lower_template_as_literal(args->0)),
                },
            )
        } else {
            SpecIrExpr::Call(
                SpecCall {
                    span: node.span,
                    callee,
                    arguments: self.field_arguments(node, "arguments"@),
                    optional: spec_has_optional_chain(node),
                },
            )
        }
    }

    /// A `new` expression.
    pub open spec fn spec_lower_new_expression(&self, node: CstNode) -> SpecIrExpr
        decreases node, 9int, 0int,
    {
        SpecIrExpr::NewExpr(
            SpecNewExpr {
                span: node.span,
                callee: self.field_expr_or_missing(node, "constructor"@, "missing_constructor"@),
                arguments: self.field_arguments(node, "arguments"@),
            },
        )
    }

    /// `a.b` or `a?.b`.
    pub open spec fn spec_lower_member_expression(&self, node: CstNode) -> SpecIrExpr
        decreases node, 9int, 0int,
    {
        SpecIrExpr::MemberAccess(
            SpecMemberAccess {
                span: node.span,
                object: self.field_expr_or_missing(node, "object"@, "missing_object"@),
                property: self.field_expr_or_missing(node, "property"@, "missing_property"@),
                computed: false,
                optional: spec_has_optional_chain(node),
            },
        )
    }

    /// `a[b]` or `a?.[b]`.
    pub open spec fn spec_lower_subscript_expression(&self, node: CstNode) -> SpecIrExpr
        decreases node, 9int, 0int,
    {
        SpecIrExpr::MemberAccess(
            SpecMemberAccess {
                span: node.span,
                object: self.field_expr_or_missing(node, "object"@, "missing_object"@),
                property: self.field_expr_or_missing(node, "index"@, "missing_index"@),
                computed: true,
                optional: spec_has_optional_chain(node),
            },
        )
    }

    /// A binary expression; the operator is the text of the `operator` child.
    pub open spec fn spec_lower_binary_expression(&self, node: CstNode) -> SpecIrExpr
        decreases node, 9int, 0int,
    {
        SpecIrExpr::BinaryExpr(
            SpecBinaryExpr {
                span: node.span,
                left: self.field_expr_or_missing(node, "left"@, "missing_left"@),
                operator: self.text_or_empty(field_child(node, "operator"@)),
                right: self.field_expr_or_missing(node, "right"@, "missing_right"@),
            },
        )
    }

    /// A unary expression, always prefix.
    pub open spec fn spec_lower_unary_expression(&self, node: CstNode) -> SpecIrExpr
        decreases node, 9int, 0int,
    {
        SpecIrExpr::UnaryExpr(
            SpecUnaryExpr {
                span: node.span,
                operator: self.text_or_empty(field_child(node, "operator"@)),
                operand: self.field_expr_or_missing(node, "argument"@, "missing_operand"@),
                prefix: true,
            },
        )
    }

    /// `++` or `--`: prefix where the operator starts before the operand, or
    /// where either is missing.
    pub open spec fn spec_lower_update_expression(&self, node: CstNode) -> SpecIrExpr
        decreases node, 9int, 0int,
    {
        let operator = field_child(node, "operator"@);
        let operand = field_child(node, "argument"@);
        SpecIrExpr::UpdateExpr(
            SpecUpdateExpr {
                span: node.span,
                operator: self.text_or_empty(operator),
                operand: self.field_expr_or_missing(node, "argument"@, "missing_operand"@),
                prefix: match (operator, operand) {
                    (Some(op), Some(arg)) => op.span.start.offset < arg.span.start.offset,
                    _ => true,
                },
            },
        )
    }

    /// `c ? a : b`
    pub open spec fn spec_lower_conditional_expression(&self, node: CstNode) -> SpecIrExpr
        decreases node, 9int, 0int,
    {
        SpecIrExpr::ConditionalExpr(
            SpecConditionalExpr {
                span: node.span,
                condition: self.field_expr_or_missing(node, "condition"@, "missing_condition"@),
                consequent: self.field_expr_or_missing(node, "consequence"@, "missing_consequent"@),
                alternate: self.field_expr_or_missing(node, "alternative"@, "missing_alternate"@),
            },
        )
    }

    /// An identifier (also `this` and `super`): its text.
    pub open spec fn spec_lower_identifier(&self, node: CstNode) -> SpecIrExpr {
        SpecIrExpr::Identifier(SpecIdentifier { span: node.span, name: self.spec_node_text(node) })
    }

    /// A number literal, kept as its text.
    pub open spec fn spec_lower_number_literal(&self, node: CstNode) -> SpecIrExpr {
        SpecIrExpr::Literal(
            SpecLiteral { span: node.span, value: SpecLiteralValue::Number(self.spec_node_text(node)) },
        )
    }

    /// A string literal: its text without the quotes.
    pub open spec fn spec_lower_string_literal(&self, node: CstNode) -> SpecIrExpr {
        SpecIrExpr::Literal(
            SpecLiteral {
                span: node.span,
                value: SpecLiteralValue::String(spec_strip_quotes(self.spec_node_text(node))),
            },
        )
    }

    /// The text parts, the substitutions and the pending text part after the
    /// first `i` children of a template string.
    pub open spec fn template_parts_upto(&self, node: CstNode, i: int) -> (Seq<Seq<char>>, Seq<SpecIrExpr>, Seq<char>)
        decreases node, 4int, i,
    {
        if i <= 0 || i > node.children@.len() {
            (Seq::empty(), Seq::empty(), Seq::empty())
        } else {
            let (quasis, exprs, current) = self.template_parts_upto(node, i - 1);
            let c = node.children@[i - 1];
            if c.kind@ == "string_fragment"@ || c.kind@ == "escape_sequence"@ {
                (quasis, exprs, current + self.spec_node_text(c))
            } else if c.kind@ == "template_substitution"@ {
                proof {
                    lemma_find_child(c, is_named());
                }
                (
                    quasis.push(current),
                    match first_named(c) {
                        Some(e) => exprs.push(self.spec_lower_expression(e)),
                        None => exprs,
                    },
                    Seq::empty(),
                )
            } else {
                (quasis, exprs, current)
            }
        }
    }

    /// A template string as a template literal: the text parts and the
    /// substitutions in order.
    pub open spec fn spec_lower_template_as_literal(&self, node: CstNode) -> SpecIrExpr
        decreases node, 9int, 0int,
    {
        let (quasis, expressions, current) = self.template_parts_upto(node, node.children@.len() as int);
        SpecIrExpr::TemplateLiteral(
            SpecTemplateLiteral { span: node.span, quasis: quasis.push(current), expressions },
        )
    }

    /// A template string: a string literal where it has no substitution, a
    /// template literal otherwise.
    pub open spec fn spec_lower_template_string(&self, node: CstNode) -> SpecIrExpr
        decreases node, 10int, 0int,
    {
        if !any_child(node, kind_is("template_substitution"@)) {
            self.spec_lower_string_literal(node)
        } else {
            self.spec_lower_template_as_literal(node)
        }
    }

    /// The parameters among the first `i` children of an arrow function's
    /// parameter list, leaving out tokens and type nodes.
    pub open spec fn arrow_params_upto(&self, p: CstNode, i: int) -> Seq<SpecParam>
        decreases p, 4int, i,
    {
        if i <= 0 || i > p.children@.len() {
            Seq::empty()
        } else {
            let prev = self.arrow_params_upto(p, i - 1);
            let c = p.children@[i - 1];
            if c.named && !spec_is_ts_type_node(c.kind@) {
                prev.push(self.spec_lower_param(c))
            } else {
                prev
            }
        }
    }

    /// An arrow function. A concise body becomes a block that returns it.
    pub open spec fn spec_lower_arrow_function(&self, node: CstNode) -> SpecIrExpr
        decreases node, 9int, 0int,
    {
        proof {
            lemma_find_child(node, has_field("parameters"@));
            lemma_find_child(node, has_field("parameter"@));
            lemma_find_child(node, has_field("body"@));
        }
        let p = match field_child(node, "parameters"@) {
            Some(p) => Some(p),
            None => field_child(node, "parameter"@),
        };
        let params = match p {
            Some(p) => {
                if p.kind@ == "identifier"@ {
                    seq![SpecParam { span: p.span, name: self.spec_node_text(p), pattern: None, default_value: None }]
                } else {
                    self.arrow_params_upto(p, p.children@.len() as int)
                }
            },
            None => Seq::empty(),
        };
        let body = match field_child(node, "body"@) {
            Some(b) => {
                if b.kind@ == "statement_block"@ {
                    self.spec_lower_block(b)
                } else {
                    SpecBlock {
                        span: b.span,
                        body: seq![
                            SpecIrNode::Return(
                                SpecReturnStmt { span: b.span, value: Some(self.spec_lower_expression(b)) },
                            ),
                        ],
                    }
                }
            },
            None => empty_block(node.span),
        };
        SpecIrExpr::FunctionExpr(
            SpecFunctionDecl {
                span: node.span,
                name: None,
                params,
                body,
                annotations: Annotations {
                    is_async: any_child(node, kind_is("async"@)),
                    ..Annotations::spec_empty()
                },
                is_arrow: true,
            },
        )
    }

    /// A function expression (also a generator function).
    pub open spec fn spec_lower_function_expression(&self, node: CstNode) -> SpecIrExpr
        decreases node, 9int, 0int,
    {
        SpecIrExpr::FunctionExpr(
            SpecFunctionDecl {
                span: node.span,
                name: self.text_of(field_child(node, "name"@)),
                params: self.spec_lower_formal_parameters(node),
                body: self.field_block_or_empty(node, "body"@),
                annotations: Annotations {
                    is_async: any_child(node, kind_is("async"@)),
                    is_generator: any_child(node, kind_is("*"@)),
                    ..Annotations::spec_empty()
                },
                is_arrow: false,
            },
        )
    }

    /// `await e`
    pub open spec fn spec_lower_await_expression(&self, node: CstNode) -> SpecIrExpr
        decreases node, 9int, 0int,
    {
        SpecIrExpr::AwaitExpr(
            SpecAwaitExpr {
                span: node.span,
                argument: self.first_named_expr_or_missing(node, "missing_await_argument"@),
            },
        )
    }

    /// `yield e` or `yield* e`
    pub open spec fn spec_lower_yield_expression(&self, node: CstNode) -> SpecIrExpr
        decreases node, 9int, 0int,
    {
        SpecIrExpr::YieldExpr(
            SpecYieldExpr {
                span: node.span,
                argument: match self.opt_first_named_expression(node) {
                    Some(e) => Some(Box::new(e)),
                    None => None,
                },
                delegate: any_child(node, token_is("*"@)),
            },
        )
    }

    /// `...e`
    pub open spec fn spec_lower_spread_expression(&self, node: CstNode) -> SpecIrExpr
        decreases node, 9int, 0int,
    {
        SpecIrExpr::SpreadExpr(
            SpecSpreadExpr {
                span: node.span,
                argument: self.first_named_expr_or_missing(node, "missing_spread_argument"@),
            },
        )
    }

    /// An array literal; `None` elements are holes.
    pub open spec fn spec_lower_array_expression(&self, node: CstNode) -> SpecIrExpr
        decreases node, 9int, 0int,
    {
        SpecIrExpr::ArrayExpr(
            SpecArrayExpr {
                span: node.span,
                elements: self.array_expression_upto(node, node.children@.len() as int).elements,
            },
        )
    }

    /// The array scan over the first `i` children of an array literal.
    pub open spec fn array_expression_upto(&self, node: CstNode, i: int) -> ArrayScan<SpecIrExpr>
        decreases node, 4int, i,
    {
        if i <= 0 || i > node.children@.len() {
            array_scan_start()
        } else {
            let c = node.children@[i - 1];
            array_scan_step(self.array_expression_upto(node, i - 1), c, self.spec_lower_expression(c))
        }
    }

    /// An object literal.
    pub open spec fn spec_lower_object_expression(&self, node: CstNode) -> SpecIrExpr
        decreases node, 9int, 0int,
    {
        SpecIrExpr::ObjectExpr(
            SpecObjectExpr {
                span: node.span,
                properties: self.object_properties_upto(node, node.children@.len() as int),
            },
        )
    }

    /// The properties that the first `i` named children of an object literal
    /// lower to; comments are left out, and an unknown kind of member is kept
    /// opaque.
    pub open spec fn object_properties_upto(&self, node: CstNode, i: int) -> Seq<SpecObjectProperty>
        decreases node, 4int, i,
    {
        if i <= 0 || i > node.children@.len() {
            Seq::empty()
        } else {
            let prev = self.object_properties_upto(node, i - 1);
            let c = node.children@[i - 1];
            let k = c.kind@;
            if !c.named || k == "comment"@ {
                prev
            } else if k == "pair"@ {
                prev.push(self.spec_lower_pair_property(c))
            } else if k == "shorthand_property_identifier"@ || k == "shorthand_property_identifier_pattern"@ {
                prev.push(
                    SpecObjectProperty::Shorthand(
                        SpecShorthandProperty { span: c.span, name: self.spec_node_text(c) },
                    ),
                )
            } else if k == "method_definition"@ {
                prev.push(self.spec_lower_method_or_accessor_property(c))
            } else if k == "spread_element"@ {
                prev.push(
                    SpecObjectProperty::Spread(
                        SpecSpreadProperty {
                            span: c.span,
                            argument: *self.first_named_expr_or_missing(c, "missing_spread_argument"@),
                        },
                    ),
                )
            } else {
                prev.push(
                    SpecObjectProperty::Opaque(
                        SpecOpaqueExpr { span: c.span, cst_kind: k, text: self.spec_node_text(c) },
                    ),
                )
            }
        }
    }

    /// `key: value`
    pub open spec fn spec_lower_pair_property(&self, node: CstNode) -> SpecObjectProperty
        decreases node, 9int, 0int,
    {
        let key_node = field_child(node, "key"@);
        SpecObjectProperty::KeyValue(
            SpecKeyValueProperty {
                span: node.span,
                key: self.field_key(node, "key"@, "missing_key"@),
                value: *self.field_expr_or_missing(node, "value"@, "missing_value"@),
                computed: Self::is_computed(key_node),
            },
        )
    }

    /// A method, getter or setter of an object literal.
    pub open spec fn spec_lower_method_or_accessor_property(&self, node: CstNode) -> SpecObjectProperty
        decreases node, 9int, 0int,
    {
        let has_get = any_child(node, token_is("get"@));
        let has_set = any_child(node, token_is("set"@));
        let name_node = field_child(node, "name"@);
        let key = self.field_key(node, "name"@, "missing_name"@);
        let params = self.spec_lower_formal_parameters(node);
        let body = self.field_block_or_empty(node, "body"@);
        if has_get || has_set {
            SpecObjectProperty::Accessor(
                SpecAccessorProperty {
                    span: node.span,
                    key,
                    accessor_kind: if has_get {
                        AccessorKind::Getter
                    } else {
                        AccessorKind::Setter
                    },
                    params,
                    body,
                },
            )
        } else {
            SpecObjectProperty::Method(
                SpecMethodProperty {
                    span: node.span,
                    key,
                    params,
                    body,
                    computed: Self::is_computed(name_node),
                    is_async: any_child(node, token_is("async"@)),
                    is_generator: any_child(node, token_is("*"@)),
                },
            )
        }
    }
}

/// `true` or `false`, by the kind of the node.
pub open spec fn spec_lower_boolean_literal(node: CstNode) -> SpecIrExpr {
    SpecIrExpr::Literal(
        SpecLiteral { span: node.span, value: SpecLiteralValue::Boolean(node.kind@ == "true"@) },
    )
}

/// `null`
pub open spec fn spec_lower_null_literal(node: CstNode) -> SpecIrExpr {
    SpecIrExpr::Literal(SpecLiteral { span: node.span, value: SpecLiteralValue::Null })
}

/// `undefined`
pub open spec fn spec_lower_undefined(node: CstNode) -> SpecIrExpr {
    SpecIrExpr::Literal(SpecLiteral { span: node.span, value: SpecLiteralValue::Undefined })
}

} // verus!
