//! Spec-level models of the IR: the same shapes, with `Seq<char>` for
//! strings and `Seq` for vectors. Contracts of the lowering speak of these.
use vstd::prelude::*;

use crate::ir::{
    Accessibility, AccessorKind, AccessorProperty, Annotations, ArrayExpr, ArrayPattern, Assignment, AssignmentPattern, AwaitExpr, BinaryExpr, Block, BreakStmt, Call, CatchClause, ClassDecl, ConditionalExpr, ContinueStmt, DeclKind, ExportDecl, ExportSpecifier, ExpressionStatement, ForAnnotations, ForKind, ForStmt, FunctionDecl, Identifier, IfStmt, ImportDecl, ImportDefault, ImportNamed, ImportNamespace, ImportSpecifier, IrExpr, IrModule, IrNode, KeyValueProperty, LabeledStmt, Literal, LiteralValue, MemberAccess, MethodDefinition, MethodKind, MethodProperty, NewExpr, ObjectExpr, ObjectPattern, ObjectPatternProperty, ObjectProperty, OpaqueExpr, OpaqueNode, Param, Pattern, PatternKeyValue, PatternRest, PatternShorthand, PropertyDefinition, RestPattern, ReturnStmt, ScopeLevel, ShorthandProperty, SpreadExpr, SpreadProperty, SwitchCase, SwitchStmt, TaggedTemplate, TemplateLiteral, ThrowStmt, TryCatchStmt, UnaryExpr, UpdateExpr, VariableDecl, WhileStmt, YieldExpr,
};
use crate::source::Span;

verus! {

/// The model of [`IrModule`]: strings as `Seq<char>`, vectors as `Seq`.
#[verifier::ext_equal]
pub struct SpecIrModule {
    pub span: Span,
    pub body: Seq<SpecIrNode>,
}

/// The model of [`IrNode`]: strings as `Seq<char>`, vectors as `Seq`.
#[verifier::ext_equal]
pub enum SpecIrNode {
    VariableDecl(SpecVariableDecl),
    FunctionDecl(SpecFunctionDecl),
    ClassDecl(SpecClassDecl),
    MethodDefinition(SpecMethodDefinition),
    PropertyDefinition(SpecPropertyDefinition),
    ImportDecl(SpecImportDecl),
    ExportDecl(SpecExportDecl),
    If(SpecIfStmt),
    For(SpecForStmt),
    While(SpecWhileStmt),
    Switch(SpecSwitchStmt),
    TryCatch(SpecTryCatchStmt),
    Return(SpecReturnStmt),
    Throw(SpecThrowStmt),
    Break(SpecBreakStmt),
    Continue(SpecContinueStmt),
    Labeled(SpecLabeledStmt),
    ExpressionStatement(SpecExpressionStatement),
    Block(SpecBlock),
    Opaque(SpecOpaqueNode),
}

/// The model of [`IrExpr`]: strings as `Seq<char>`, vectors as `Seq`.
#[verifier::ext_equal]
pub enum SpecIrExpr {
    Assignment(SpecAssignment),
    Call(SpecCall),
    MemberAccess(SpecMemberAccess),
    BinaryExpr(SpecBinaryExpr),
    Identifier(SpecIdentifier),
    Literal(SpecLiteral),
    UnaryExpr(SpecUnaryExpr),
    UpdateExpr(SpecUpdateExpr),
    ConditionalExpr(SpecConditionalExpr),
    ArrayExpr(SpecArrayExpr),
    ObjectExpr(SpecObjectExpr),
    FunctionExpr(SpecFunctionDecl),
    NewExpr(SpecNewExpr),
    AwaitExpr(SpecAwaitExpr),
    YieldExpr(SpecYieldExpr),
    SpreadExpr(SpecSpreadExpr),
    TemplateLiteral(SpecTemplateLiteral),
    TaggedTemplate(SpecTaggedTemplate),
    Opaque(SpecOpaqueExpr),
}

/// The model of [`VariableDecl`]: strings as `Seq<char>`, vectors as `Seq`.
#[verifier::ext_equal]
pub struct SpecVariableDecl {
    pub span: Span,
    pub name: Seq<char>,
    pub value: Option<SpecIrExpr>,
    pub pattern: Option<SpecPattern>,
    pub annotations: Annotations,
}

/// The model of [`FunctionDecl`]: strings as `Seq<char>`, vectors as `Seq`.
#[verifier::ext_equal]
pub struct SpecFunctionDecl {
    pub span: Span,
    pub name: Option<Seq<char>>,
    pub params: Seq<SpecParam>,
    pub body: SpecBlock,
    pub annotations: Annotations,
    pub is_arrow: bool,
}

/// The model of [`Param`]: strings as `Seq<char>`, vectors as `Seq`.
#[verifier::ext_equal]
pub struct SpecParam {
    pub span: Span,
    pub name: Seq<char>,
    pub pattern: Option<SpecPattern>,
    pub default_value: Option<SpecIrExpr>,
}

/// The model of [`ClassDecl`]: strings as `Seq<char>`, vectors as `Seq`.
#[verifier::ext_equal]
pub struct SpecClassDecl {
    pub span: Span,
    pub name: Option<Seq<char>>,
    pub super_class: Option<SpecIrExpr>,
    pub body: Seq<SpecIrNode>,
    pub annotations: Annotations,
}

/// The model of [`MethodDefinition`]: strings as `Seq<char>`, vectors as `Seq`.
#[verifier::ext_equal]
pub struct SpecMethodDefinition {
    pub span: Span,
    pub key: SpecIrExpr,
    pub kind: MethodKind,
    pub params: Seq<SpecParam>,
    pub body: SpecBlock,
    pub is_static: bool,
    pub computed: bool,
    pub accessibility: Option<Accessibility>,
    pub is_async: bool,
    pub is_generator: bool,
}

/// The model of [`PropertyDefinition`]: strings as `Seq<char>`, vectors as `Seq`.
#[verifier::ext_equal]
pub struct SpecPropertyDefinition {
    pub span: Span,
    pub key: SpecIrExpr,
    pub value: Option<SpecIrExpr>,
    pub is_static: bool,
    pub computed: bool,
    pub accessibility: Option<Accessibility>,
}

/// The model of [`ImportDecl`]: strings as `Seq<char>`, vectors as `Seq`.
#[verifier::ext_equal]
pub struct SpecImportDecl {
    pub span: Span,
    pub specifiers: Seq<SpecImportSpecifier>,
    pub source: Seq<char>,
}

/// The model of [`ImportSpecifier`]: strings as `Seq<char>`, vectors as `Seq`.
#[verifier::ext_equal]
pub enum SpecImportSpecifier {
    Default(SpecImportDefault),
    Named(SpecImportNamed),
    Namespace(SpecImportNamespace),
}

/// The model of [`ImportDefault`]: strings as `Seq<char>`, vectors as `Seq`.
#[verifier::ext_equal]
pub struct SpecImportDefault {
    pub span: Span,
    pub local: Seq<char>,
}

/// The model of [`ImportNamed`]: strings as `Seq<char>`, vectors as `Seq`.
#[verifier::ext_equal]
pub struct SpecImportNamed {
    pub span: Span,
    pub imported: Seq<char>,
    pub local: Seq<char>,
}

/// The model of [`ImportNamespace`]: strings as `Seq<char>`, vectors as `Seq`.
#[verifier::ext_equal]
pub struct SpecImportNamespace {
    pub span: Span,
    pub local: Seq<char>,
}

/// The model of [`ExportDecl`]: strings as `Seq<char>`, vectors as `Seq`.
#[verifier::ext_equal]
pub struct SpecExportDecl {
    pub span: Span,
    pub declaration: Option<Box<SpecIrNode>>,
    pub specifiers: Seq<SpecExportSpecifier>,
    pub source: Option<Seq<char>>,
    pub is_default: bool,
}

/// The model of [`ExportSpecifier`]: strings as `Seq<char>`, vectors as `Seq`.
#[verifier::ext_equal]
pub struct SpecExportSpecifier {
    pub span: Span,
    pub local: Seq<char>,
    pub exported: Seq<char>,
}

/// The model of [`IfStmt`]: strings as `Seq<char>`, vectors as `Seq`.
#[verifier::ext_equal]
pub struct SpecIfStmt {
    pub span: Span,
    pub condition: SpecIrExpr,
    pub consequent: SpecBlock,
    pub alternate: Option<Box<SpecIrNode>>,
}

/// The model of [`ForStmt`]: strings as `Seq<char>`, vectors as `Seq`.
#[verifier::ext_equal]
pub struct SpecForStmt {
    pub span: Span,
    pub init: Option<Box<SpecIrNode>>,
    pub condition: Option<SpecIrExpr>,
    pub update: Option<SpecIrExpr>,
    pub body: SpecBlock,
    pub annotations: ForAnnotations,
}

/// The model of [`WhileStmt`]: strings as `Seq<char>`, vectors as `Seq`.
#[verifier::ext_equal]
pub struct SpecWhileStmt {
    pub span: Span,
    pub condition: SpecIrExpr,
    pub body: SpecBlock,
    pub is_do_while: bool,
}

/// The model of [`SwitchStmt`]: strings as `Seq<char>`, vectors as `Seq`.
#[verifier::ext_equal]
pub struct SpecSwitchStmt {
    pub span: Span,
    pub discriminant: SpecIrExpr,
    pub cases: Seq<SpecSwitchCase>,
}

/// The model of [`SwitchCase`]: strings as `Seq<char>`, vectors as `Seq`.
#[verifier::ext_equal]
pub struct SpecSwitchCase {
    pub span: Span,
    pub test: Option<SpecIrExpr>,
    pub body: Seq<SpecIrNode>,
}

/// The model of [`TryCatchStmt`]: strings as `Seq<char>`, vectors as `Seq`.
#[verifier::ext_equal]
pub struct SpecTryCatchStmt {
    pub span: Span,
    pub try_block: SpecBlock,
    pub catch_clause: Option<SpecCatchClause>,
    pub finally_block: Option<SpecBlock>,
}

/// The model of [`CatchClause`]: strings as `Seq<char>`, vectors as `Seq`.
#[verifier::ext_equal]
pub struct SpecCatchClause {
    pub span: Span,
    pub param: Option<Seq<char>>,
    pub body: SpecBlock,
}

/// The model of [`ReturnStmt`]: strings as `Seq<char>`, vectors as `Seq`.
#[verifier::ext_equal]
pub struct SpecReturnStmt {
    pub span: Span,
    pub value: Option<SpecIrExpr>,
}

/// The model of [`ThrowStmt`]: strings as `Seq<char>`, vectors as `Seq`.
#[verifier::ext_equal]
pub struct SpecThrowStmt {
    pub span: Span,
    pub argument: SpecIrExpr,
}

/// The model of [`BreakStmt`]: strings as `Seq<char>`, vectors as `Seq`.
#[verifier::ext_equal]
pub struct SpecBreakStmt {
    pub span: Span,
    pub label: Option<Seq<char>>,
}

/// The model of [`ContinueStmt`]: strings as `Seq<char>`, vectors as `Seq`.
#[verifier::ext_equal]
pub struct SpecContinueStmt {
    pub span: Span,
    pub label: Option<Seq<char>>,
}

/// The model of [`LabeledStmt`]: strings as `Seq<char>`, vectors as `Seq`.
#[verifier::ext_equal]
pub struct SpecLabeledStmt {
    pub span: Span,
    pub label: Seq<char>,
    pub body: SpecBlock,
}

/// The model of [`ExpressionStatement`]: strings as `Seq<char>`, vectors as `Seq`.
#[verifier::ext_equal]
pub struct SpecExpressionStatement {
    pub span: Span,
    pub expression: SpecIrExpr,
}

/// The model of [`Assignment`]: strings as `Seq<char>`, vectors as `Seq`.
#[verifier::ext_equal]
pub struct SpecAssignment {
    pub span: Span,
    pub target: Box<SpecIrExpr>,
    pub operator: Seq<char>,
    pub value: Box<SpecIrExpr>,
}

/// The model of [`Call`]: strings as `Seq<char>`, vectors as `Seq`.
#[verifier::ext_equal]
pub struct SpecCall {
    pub span: Span,
    pub callee: Box<SpecIrExpr>,
    pub arguments: Seq<SpecIrExpr>,
    pub optional: bool,
}

/// The model of [`MemberAccess`]: strings as `Seq<char>`, vectors as `Seq`.
#[verifier::ext_equal]
pub struct SpecMemberAccess {
    pub span: Span,
    pub object: Box<SpecIrExpr>,
    pub property: Box<SpecIrExpr>,
    pub computed: bool,
    pub optional: bool,
}

/// The model of [`BinaryExpr`]: strings as `Seq<char>`, vectors as `Seq`.
#[verifier::ext_equal]
pub struct SpecBinaryExpr {
    pub span: Span,
    pub left: Box<SpecIrExpr>,
    pub operator: Seq<char>,
    pub right: Box<SpecIrExpr>,
}

/// The model of [`Identifier`]: strings as `Seq<char>`, vectors as `Seq`.
#[verifier::ext_equal]
pub struct SpecIdentifier {
    pub span: Span,
    pub name: Seq<char>,
}

/// The model of [`Literal`]: strings as `Seq<char>`, vectors as `Seq`.
#[verifier::ext_equal]
pub struct SpecLiteral {
    pub span: Span,
    pub value: SpecLiteralValue,
}

/// The model of [`LiteralValue`]: strings as `Seq<char>`, vectors as `Seq`.
#[verifier::ext_equal]
pub enum SpecLiteralValue {
    String(Seq<char>),
    Number(Seq<char>),
    Boolean(bool),
    Null,
    Undefined,
}

/// The model of [`Block`]: strings as `Seq<char>`, vectors as `Seq`.
#[verifier::ext_equal]
pub struct SpecBlock {
    pub span: Span,
    pub body: Seq<SpecIrNode>,
}

/// The model of [`UnaryExpr`]: strings as `Seq<char>`, vectors as `Seq`.
#[verifier::ext_equal]
pub struct SpecUnaryExpr {
    pub span: Span,
    pub operator: Seq<char>,
    pub operand: Box<SpecIrExpr>,
    pub prefix: bool,
}

/// The model of [`UpdateExpr`]: strings as `Seq<char>`, vectors as `Seq`.
#[verifier::ext_equal]
pub struct SpecUpdateExpr {
    pub span: Span,
    pub operator: Seq<char>,
    pub operand: Box<SpecIrExpr>,
    pub prefix: bool,
}

/// The model of [`ConditionalExpr`]: strings as `Seq<char>`, vectors as `Seq`.
#[verifier::ext_equal]
pub struct SpecConditionalExpr {
    pub span: Span,
    pub condition: Box<SpecIrExpr>,
    pub consequent: Box<SpecIrExpr>,
    pub alternate: Box<SpecIrExpr>,
}

/// The model of [`ArrayExpr`]: strings as `Seq<char>`, vectors as `Seq`.
#[verifier::ext_equal]
pub struct SpecArrayExpr {
    pub span: Span,
    pub elements: Seq<Option<SpecIrExpr>>,
}

/// The model of [`ObjectExpr`]: strings as `Seq<char>`, vectors as `Seq`.
#[verifier::ext_equal]
pub struct SpecObjectExpr {
    pub span: Span,
    pub properties: Seq<SpecObjectProperty>,
}

/// The model of [`ObjectProperty`]: strings as `Seq<char>`, vectors as `Seq`.
#[verifier::ext_equal]
pub enum SpecObjectProperty {
    KeyValue(SpecKeyValueProperty),
    Shorthand(SpecShorthandProperty),
    Method(SpecMethodProperty),
    Accessor(SpecAccessorProperty),
    Spread(SpecSpreadProperty),
    Opaque(SpecOpaqueExpr),
}

/// The model of [`KeyValueProperty`]: strings as `Seq<char>`, vectors as `Seq`.
#[verifier::ext_equal]
pub struct SpecKeyValueProperty {
    pub span: Span,
    pub key: SpecIrExpr,
    pub value: SpecIrExpr,
    pub computed: bool,
}

/// The model of [`ShorthandProperty`]: strings as `Seq<char>`, vectors as `Seq`.
#[verifier::ext_equal]
pub struct SpecShorthandProperty {
    pub span: Span,
    pub name: Seq<char>,
}

/// The model of [`MethodProperty`]: strings as `Seq<char>`, vectors as `Seq`.
#[verifier::ext_equal]
pub struct SpecMethodProperty {
    pub span: Span,
    pub key: SpecIrExpr,
    pub params: Seq<SpecParam>,
    pub body: SpecBlock,
    pub computed: bool,
    pub is_async: bool,
    pub is_generator: bool,
}

/// The model of [`AccessorProperty`]: strings as `Seq<char>`, vectors as `Seq`.
#[verifier::ext_equal]
pub struct SpecAccessorProperty {
    pub span: Span,
    pub key: SpecIrExpr,
    pub accessor_kind: AccessorKind,
    pub params: Seq<SpecParam>,
    pub body: SpecBlock,
}

/// The model of [`SpreadProperty`]: strings as `Seq<char>`, vectors as `Seq`.
#[verifier::ext_equal]
pub struct SpecSpreadProperty {
    pub span: Span,
    pub argument: SpecIrExpr,
}

/// The model of [`NewExpr`]: strings as `Seq<char>`, vectors as `Seq`.
#[verifier::ext_equal]
pub struct SpecNewExpr {
    pub span: Span,
    pub callee: Box<SpecIrExpr>,
    pub arguments: Seq<SpecIrExpr>,
}

/// The model of [`AwaitExpr`]: strings as `Seq<char>`, vectors as `Seq`.
#[verifier::ext_equal]
pub struct SpecAwaitExpr {
    pub span: Span,
    pub argument: Box<SpecIrExpr>,
}

/// The model of [`YieldExpr`]: strings as `Seq<char>`, vectors as `Seq`.
#[verifier::ext_equal]
pub struct SpecYieldExpr {
    pub span: Span,
    pub argument: Option<Box<SpecIrExpr>>,
    pub delegate: bool,
}

/// The model of [`SpreadExpr`]: strings as `Seq<char>`, vectors as `Seq`.
#[verifier::ext_equal]
pub struct SpecSpreadExpr {
    pub span: Span,
    pub argument: Box<SpecIrExpr>,
}

/// The model of [`TemplateLiteral`]: strings as `Seq<char>`, vectors as `Seq`.
#[verifier::ext_equal]
pub struct SpecTemplateLiteral {
    pub span: Span,
    pub quasis: Seq<Seq<char>>,
    pub expressions: Seq<SpecIrExpr>,
}

/// The model of [`TaggedTemplate`]: strings as `Seq<char>`, vectors as `Seq`.
#[verifier::ext_equal]
pub struct SpecTaggedTemplate {
    pub span: Span,
    pub tag: Box<SpecIrExpr>,
    pub quasi: Box<SpecIrExpr>,
}

/// The model of [`Pattern`]: strings as `Seq<char>`, vectors as `Seq`.
#[verifier::ext_equal]
pub enum SpecPattern {
    Object(SpecObjectPattern),
    Array(SpecArrayPattern),
    Assignment(SpecAssignmentPattern),
    Rest(SpecRestPattern),
    Opaque(SpecOpaqueExpr),
}

/// The model of [`ObjectPattern`]: strings as `Seq<char>`, vectors as `Seq`.
#[verifier::ext_equal]
pub struct SpecObjectPattern {
    pub span: Span,
    pub properties: Seq<SpecObjectPatternProperty>,
}

/// The model of [`ObjectPatternProperty`]: strings as `Seq<char>`, vectors as `Seq`.
#[verifier::ext_equal]
pub enum SpecObjectPatternProperty {
    KeyValue(SpecPatternKeyValue),
    Shorthand(SpecPatternShorthand),
    Rest(SpecPatternRest),
}

/// The model of [`PatternKeyValue`]: strings as `Seq<char>`, vectors as `Seq`.
#[verifier::ext_equal]
pub struct SpecPatternKeyValue {
    pub span: Span,
    pub key: Seq<char>,
    pub value: SpecPattern,
}

/// The model of [`PatternShorthand`]: strings as `Seq<char>`, vectors as `Seq`.
#[verifier::ext_equal]
pub struct SpecPatternShorthand {
    pub span: Span,
    pub name: Seq<char>,
    pub default_value: Option<SpecIrExpr>,
}

/// The model of [`PatternRest`]: strings as `Seq<char>`, vectors as `Seq`.
#[verifier::ext_equal]
pub struct SpecPatternRest {
    pub span: Span,
    pub name: Seq<char>,
}

/// The model of [`ArrayPattern`]: strings as `Seq<char>`, vectors as `Seq`.
#[verifier::ext_equal]
pub struct SpecArrayPattern {
    pub span: Span,
    pub elements: Seq<Option<SpecPattern>>,
}

/// The model of [`AssignmentPattern`]: strings as `Seq<char>`, vectors as `Seq`.
#[verifier::ext_equal]
pub struct SpecAssignmentPattern {
    pub span: Span,
    pub left: Box<SpecPattern>,
    pub right: SpecIrExpr,
}

/// The model of [`RestPattern`]: strings as `Seq<char>`, vectors as `Seq`.
#[verifier::ext_equal]
pub struct SpecRestPattern {
    pub span: Span,
    pub argument: Box<SpecPattern>,
}

/// The model of [`OpaqueExpr`]: strings as `Seq<char>`, vectors as `Seq`.
#[verifier::ext_equal]
pub struct SpecOpaqueExpr {
    pub span: Span,
    pub cst_kind: Seq<char>,
    pub text: Seq<char>,
}

/// The model of [`OpaqueNode`]: strings as `Seq<char>`, vectors as `Seq`.
#[verifier::ext_equal]
pub struct SpecOpaqueNode {
    pub span: Span,
    pub cst_kind: Seq<char>,
    pub text: Seq<char>,
}

/// The model of one [`IrModule`].
pub open spec fn model_ir_module(x: IrModule) -> SpecIrModule
{
    SpecIrModule {
        span: x.span,
        body: model_ir_node_seq(x.body@),
    }
}

/// The model of one [`IrNode`].
pub open spec fn model_ir_node(x: IrNode) -> SpecIrNode
    decreases x,
{
    match x {
        IrNode::VariableDecl(y) => SpecIrNode::VariableDecl(model_variable_decl(y)),
        IrNode::FunctionDecl(y) => SpecIrNode::FunctionDecl(model_function_decl(y)),
        IrNode::ClassDecl(y) => SpecIrNode::ClassDecl(model_class_decl(y)),
        IrNode::MethodDefinition(y) => SpecIrNode::MethodDefinition(model_method_definition(y)),
        IrNode::PropertyDefinition(y) => SpecIrNode::PropertyDefinition(model_property_definition(y)),
        IrNode::ImportDecl(y) => SpecIrNode::ImportDecl(model_import_decl(y)),
        IrNode::ExportDecl(y) => SpecIrNode::ExportDecl(model_export_decl(y)),
        IrNode::If(y) => SpecIrNode::If(model_if_stmt(y)),
        IrNode::For(y) => SpecIrNode::For(model_for_stmt(y)),
        IrNode::While(y) => SpecIrNode::While(model_while_stmt(y)),
        IrNode::Switch(y) => SpecIrNode::Switch(model_switch_stmt(y)),
        IrNode::TryCatch(y) => SpecIrNode::TryCatch(model_try_catch_stmt(y)),
        IrNode::Return(y) => SpecIrNode::Return(model_return_stmt(y)),
        IrNode::Throw(y) => SpecIrNode::Throw(model_throw_stmt(y)),
        IrNode::Break(y) => SpecIrNode::Break(model_break_stmt(y)),
        IrNode::Continue(y) => SpecIrNode::Continue(model_continue_stmt(y)),
        IrNode::Labeled(y) => SpecIrNode::Labeled(model_labeled_stmt(y)),
        IrNode::ExpressionStatement(y) => SpecIrNode::ExpressionStatement(model_expression_statement(y)),
        IrNode::Block(y) => SpecIrNode::Block(model_block(y)),
        IrNode::Opaque(y) => SpecIrNode::Opaque(model_opaque_node(y)),
    }
}

/// The model of one [`IrExpr`].
pub open spec fn model_ir_expr(x: IrExpr) -> SpecIrExpr
    decreases x,
{
    match x {
        IrExpr::Assignment(y) => SpecIrExpr::Assignment(model_assignment(y)),
        IrExpr::Call(y) => SpecIrExpr::Call(model_call(y)),
        IrExpr::MemberAccess(y) => SpecIrExpr::MemberAccess(model_member_access(y)),
        IrExpr::BinaryExpr(y) => SpecIrExpr::BinaryExpr(model_binary_expr(y)),
        IrExpr::Identifier(y) => SpecIrExpr::Identifier(model_identifier(y)),
        IrExpr::Literal(y) => SpecIrExpr::Literal(model_literal(y)),
        IrExpr::UnaryExpr(y) => SpecIrExpr::UnaryExpr(model_unary_expr(y)),
        IrExpr::UpdateExpr(y) => SpecIrExpr::UpdateExpr(model_update_expr(y)),
        IrExpr::ConditionalExpr(y) => SpecIrExpr::ConditionalExpr(model_conditional_expr(y)),
        IrExpr::ArrayExpr(y) => SpecIrExpr::ArrayExpr(model_array_expr(y)),
        IrExpr::ObjectExpr(y) => SpecIrExpr::ObjectExpr(model_object_expr(y)),
        IrExpr::FunctionExpr(y) => SpecIrExpr::FunctionExpr(model_function_decl(y)),
        IrExpr::NewExpr(y) => SpecIrExpr::NewExpr(model_new_expr(y)),
        IrExpr::AwaitExpr(y) => SpecIrExpr::AwaitExpr(model_await_expr(y)),
        IrExpr::YieldExpr(y) => SpecIrExpr::YieldExpr(model_yield_expr(y)),
        IrExpr::SpreadExpr(y) => SpecIrExpr::SpreadExpr(model_spread_expr(y)),
        IrExpr::TemplateLiteral(y) => SpecIrExpr::TemplateLiteral(model_template_literal(y)),
        IrExpr::TaggedTemplate(y) => SpecIrExpr::TaggedTemplate(model_tagged_template(y)),
        IrExpr::Opaque(y) => SpecIrExpr::Opaque(model_opaque_expr(y)),
    }
}

/// The model of one [`VariableDecl`].
pub open spec fn model_variable_decl(x: VariableDecl) -> SpecVariableDecl
    decreases x,
{
    SpecVariableDecl {
        span: x.span,
        name: x.name@,
        value: match x.value { Some(x) => Some(model_ir_expr(x)), None => None },
        pattern: match x.pattern { Some(x) => Some(model_pattern(x)), None => None },
        annotations: x.annotations,
    }
}

/// The model of one [`FunctionDecl`].
pub open spec fn model_function_decl(x: FunctionDecl) -> SpecFunctionDecl
    decreases x,
{
    SpecFunctionDecl {
        span: x.span,
        name: match x.name { Some(x) => Some(x@), None => None },
        params: model_param_seq(x.params@),
        body: model_block(x.body),
        annotations: x.annotations,
        is_arrow: x.is_arrow,
    }
}

/// The model of one [`Param`].
pub open spec fn model_param(x: Param) -> SpecParam
    decreases x,
{
    SpecParam {
        span: x.span,
        name: x.name@,
        pattern: match x.pattern { Some(x) => Some(model_pattern(x)), None => None },
        default_value: match x.default_value { Some(x) => Some(model_ir_expr(x)), None => None },
    }
}

/// The model of one [`ClassDecl`].
pub open spec fn model_class_decl(x: ClassDecl) -> SpecClassDecl
    decreases x,
{
    SpecClassDecl {
        span: x.span,
        name: match x.name { Some(x) => Some(x@), None => None },
        super_class: match x.super_class { Some(x) => Some(model_ir_expr(x)), None => None },
        body: model_ir_node_seq(x.body@),
        annotations: x.annotations,
    }
}

/// The model of one [`MethodDefinition`].
pub open spec fn model_method_definition(x: MethodDefinition) -> SpecMethodDefinition
    decreases x,
{
    SpecMethodDefinition {
        span: x.span,
        key: model_ir_expr(x.key),
        kind: x.kind,
        params: model_param_seq(x.params@),
        body: model_block(x.body),
        is_static: x.is_static,
        computed: x.computed,
        accessibility: x.accessibility,
        is_async: x.is_async,
        is_generator: x.is_generator,
    }
}

/// The model of one [`PropertyDefinition`].
pub open spec fn model_property_definition(x: PropertyDefinition) -> SpecPropertyDefinition
    decreases x,
{
    SpecPropertyDefinition {
        span: x.span,
        key: model_ir_expr(x.key),
        value: match x.value { Some(x) => Some(model_ir_expr(x)), None => None },
        is_static: x.is_static,
        computed: x.computed,
        accessibility: x.accessibility,
    }
}

/// The model of one [`ImportDecl`].
pub open spec fn model_import_decl(x: ImportDecl) -> SpecImportDecl
{
    SpecImportDecl {
        span: x.span,
        specifiers: model_import_specifier_seq(x.specifiers@),
        source: x.source@,
    }
}

/// The model of one [`ImportSpecifier`].
pub open spec fn model_import_specifier(x: ImportSpecifier) -> SpecImportSpecifier
{
    match x {
        ImportSpecifier::Default(y) => SpecImportSpecifier::Default(model_import_default(y)),
        ImportSpecifier::Named(y) => SpecImportSpecifier::Named(model_import_named(y)),
        ImportSpecifier::Namespace(y) => SpecImportSpecifier::Namespace(model_import_namespace(y)),
    }
}

/// The model of one [`ImportDefault`].
pub open spec fn model_import_default(x: ImportDefault) -> SpecImportDefault
{
    SpecImportDefault {
        span: x.span,
        local: x.local@,
    }
}

/// The model of one [`ImportNamed`].
pub open spec fn model_import_named(x: ImportNamed) -> SpecImportNamed
{
    SpecImportNamed {
        span: x.span,
        imported: x.imported@,
        local: x.local@,
    }
}

/// The model of one [`ImportNamespace`].
pub open spec fn model_import_namespace(x: ImportNamespace) -> SpecImportNamespace
{
    SpecImportNamespace {
        span: x.span,
        local: x.local@,
    }
}

/// The model of one [`ExportDecl`].
pub open spec fn model_export_decl(x: ExportDecl) -> SpecExportDecl
    decreases x,
{
    SpecExportDecl {
        span: x.span,
        declaration: match x.declaration { Some(x) => Some(Box::new(model_ir_node(*x))), None => None },
        specifiers: model_export_specifier_seq(x.specifiers@),
        source: match x.source { Some(x) => Some(x@), None => None },
        is_default: x.is_default,
    }
}

/// The model of one [`ExportSpecifier`].
pub open spec fn model_export_specifier(x: ExportSpecifier) -> SpecExportSpecifier
{
    SpecExportSpecifier {
        span: x.span,
        local: x.local@,
        exported: x.exported@,
    }
}

/// The model of one [`IfStmt`].
pub open spec fn model_if_stmt(x: IfStmt) -> SpecIfStmt
    decreases x,
{
    SpecIfStmt {
        span: x.span,
        condition: model_ir_expr(x.condition),
        consequent: model_block(x.consequent),
        alternate: match x.alternate { Some(x) => Some(Box::new(model_ir_node(*x))), None => None },
    }
}

/// The model of one [`ForStmt`].
pub open spec fn model_for_stmt(x: ForStmt) -> SpecForStmt
    decreases x,
{
    SpecForStmt {
        span: x.span,
        init: match x.init { Some(x) => Some(Box::new(model_ir_node(*x))), None => None },
        condition: match x.condition { Some(x) => Some(model_ir_expr(x)), None => None },
        update: match x.update { Some(x) => Some(model_ir_expr(x)), None => None },
        body: model_block(x.body),
        annotations: x.annotations,
    }
}

/// The model of one [`WhileStmt`].
pub open spec fn model_while_stmt(x: WhileStmt) -> SpecWhileStmt
    decreases x,
{
    SpecWhileStmt {
        span: x.span,
        condition: model_ir_expr(x.condition),
        body: model_block(x.body),
        is_do_while: x.is_do_while,
    }
}

/// The model of one [`SwitchStmt`].
pub open spec fn model_switch_stmt(x: SwitchStmt) -> SpecSwitchStmt
    decreases x,
{
    SpecSwitchStmt {
        span: x.span,
        discriminant: model_ir_expr(x.discriminant),
        cases: model_switch_case_seq(x.cases@),
    }
}

/// The model of one [`SwitchCase`].
pub open spec fn model_switch_case(x: SwitchCase) -> SpecSwitchCase
    decreases x,
{
    SpecSwitchCase {
        span: x.span,
        test: match x.test { Some(x) => Some(model_ir_expr(x)), None => None },
        body: model_ir_node_seq(x.body@),
    }
}

/// The model of one [`TryCatchStmt`].
pub open spec fn model_try_catch_stmt(x: TryCatchStmt) -> SpecTryCatchStmt
    decreases x,
{
    SpecTryCatchStmt {
        span: x.span,
        try_block: model_block(x.try_block),
        catch_clause: match x.catch_clause { Some(x) => Some(model_catch_clause(x)), None => None },
        finally_block: match x.finally_block { Some(x) => Some(model_block(x)), None => None },
    }
}

/// The model of one [`CatchClause`].
pub open spec fn model_catch_clause(x: CatchClause) -> SpecCatchClause
    decreases x,
{
    SpecCatchClause {
        span: x.span,
        param: match x.param { Some(x) => Some(x@), None => None },
        body: model_block(x.body),
    }
}

/// The model of one [`ReturnStmt`].
pub open spec fn model_return_stmt(x: ReturnStmt) -> SpecReturnStmt
    decreases x,
{
    SpecReturnStmt {
        span: x.span,
        value: match x.value { Some(x) => Some(model_ir_expr(x)), None => None },
    }
}

/// The model of one [`ThrowStmt`].
pub open spec fn model_throw_stmt(x: ThrowStmt) -> SpecThrowStmt
    decreases x,
{
    SpecThrowStmt {
        span: x.span,
        argument: model_ir_expr(x.argument),
    }
}

/// The model of one [`BreakStmt`].
pub open spec fn model_break_stmt(x: BreakStmt) -> SpecBreakStmt
{
    SpecBreakStmt {
        span: x.span,
        label: match x.label { Some(x) => Some(x@), None => None },
    }
}

/// The model of one [`ContinueStmt`].
pub open spec fn model_continue_stmt(x: ContinueStmt) -> SpecContinueStmt
{
    SpecContinueStmt {
        span: x.span,
        label: match x.label { Some(x) => Some(x@), None => None },
    }
}

/// The model of one [`LabeledStmt`].
pub open spec fn model_labeled_stmt(x: LabeledStmt) -> SpecLabeledStmt
    decreases x,
{
    SpecLabeledStmt {
        span: x.span,
        label: x.label@,
        body: model_block(x.body),
    }
}

/// The model of one [`ExpressionStatement`].
pub open spec fn model_expression_statement(x: ExpressionStatement) -> SpecExpressionStatement
    decreases x,
{
    SpecExpressionStatement {
        span: x.span,
        expression: model_ir_expr(x.expression),
    }
}

/// The model of one [`Assignment`].
pub open spec fn model_assignment(x: Assignment) -> SpecAssignment
    decreases x,
{
    SpecAssignment {
        span: x.span,
        target: Box::new(model_ir_expr(*x.target)),
        operator: x.operator@,
        value: Box::new(model_ir_expr(*x.value)),
    }
}

/// The model of one [`Call`].
pub open spec fn model_call(x: Call) -> SpecCall
    decreases x,
{
    SpecCall {
        span: x.span,
        callee: Box::new(model_ir_expr(*x.callee)),
        arguments: model_ir_expr_seq(x.arguments@),
        optional: x.optional,
    }
}

/// The model of one [`MemberAccess`].
pub open spec fn model_member_access(x: MemberAccess) -> SpecMemberAccess
    decreases x,
{
    SpecMemberAccess {
        span: x.span,
        object: Box::new(model_ir_expr(*x.object)),
        property: Box::new(model_ir_expr(*x.property)),
        computed: x.computed,
        optional: x.optional,
    }
}

/// The model of one [`BinaryExpr`].
pub open spec fn model_binary_expr(x: BinaryExpr) -> SpecBinaryExpr
    decreases x,
{
    SpecBinaryExpr {
        span: x.span,
        left: Box::new(model_ir_expr(*x.left)),
        operator: x.operator@,
        right: Box::new(model_ir_expr(*x.right)),
    }
}

/// The model of one [`Identifier`].
pub open spec fn model_identifier(x: Identifier) -> SpecIdentifier
{
    SpecIdentifier {
        span: x.span,
        name: x.name@,
    }
}

/// The model of one [`Literal`].
pub open spec fn model_literal(x: Literal) -> SpecLiteral
{
    SpecLiteral {
        span: x.span,
        value: model_literal_value(x.value),
    }
}

/// The model of one [`LiteralValue`].
pub open spec fn model_literal_value(x: LiteralValue) -> SpecLiteralValue
{
    match x {
        LiteralValue::String(y) => SpecLiteralValue::String(y@),
        LiteralValue::Number(y) => SpecLiteralValue::Number(y@),
        LiteralValue::Boolean(y) => SpecLiteralValue::Boolean(y),
        LiteralValue::Null => SpecLiteralValue::Null,
        LiteralValue::Undefined => SpecLiteralValue::Undefined,
    }
}

/// The model of one [`Block`].
pub open spec fn model_block(x: Block) -> SpecBlock
    decreases x,
{
    SpecBlock {
        span: x.span,
        body: model_ir_node_seq(x.body@),
    }
}

/// The model of one [`UnaryExpr`].
pub open spec fn model_unary_expr(x: UnaryExpr) -> SpecUnaryExpr
    decreases x,
{
    SpecUnaryExpr {
        span: x.span,
        operator: x.operator@,
        operand: Box::new(model_ir_expr(*x.operand)),
        prefix: x.prefix,
    }
}

/// The model of one [`UpdateExpr`].
pub open spec fn model_update_expr(x: UpdateExpr) -> SpecUpdateExpr
    decreases x,
{
    SpecUpdateExpr {
        span: x.span,
        operator: x.operator@,
        operand: Box::new(model_ir_expr(*x.operand)),
        prefix: x.prefix,
    }
}

/// The model of one [`ConditionalExpr`].
pub open spec fn model_conditional_expr(x: ConditionalExpr) -> SpecConditionalExpr
    decreases x,
{
    SpecConditionalExpr {
        span: x.span,
        condition: Box::new(model_ir_expr(*x.condition)),
        consequent: Box::new(model_ir_expr(*x.consequent)),
        alternate: Box::new(model_ir_expr(*x.alternate)),
    }
}

/// The model of one [`ArrayExpr`].
pub open spec fn model_array_expr(x: ArrayExpr) -> SpecArrayExpr
    decreases x,
{
    SpecArrayExpr {
        span: x.span,
        elements: model_opt_ir_expr_seq(x.elements@),
    }
}

/// The model of one [`ObjectExpr`].
pub open spec fn model_object_expr(x: ObjectExpr) -> SpecObjectExpr
    decreases x,
{
    SpecObjectExpr {
        span: x.span,
        properties: model_object_property_seq(x.properties@),
    }
}

/// The model of one [`ObjectProperty`].
pub open spec fn model_object_property(x: ObjectProperty) -> SpecObjectProperty
    decreases x,
{
    match x {
        ObjectProperty::KeyValue(y) => SpecObjectProperty::KeyValue(model_key_value_property(y)),
        ObjectProperty::Shorthand(y) => SpecObjectProperty::Shorthand(model_shorthand_property(y)),
        ObjectProperty::Method(y) => SpecObjectProperty::Method(model_method_property(y)),
        ObjectProperty::Accessor(y) => SpecObjectProperty::Accessor(model_accessor_property(y)),
        ObjectProperty::Spread(y) => SpecObjectProperty::Spread(model_spread_property(y)),
        ObjectProperty::Opaque(y) => SpecObjectProperty::Opaque(model_opaque_expr(y)),
    }
}

/// The model of one [`KeyValueProperty`].
pub open spec fn model_key_value_property(x: KeyValueProperty) -> SpecKeyValueProperty
    decreases x,
{
    SpecKeyValueProperty {
        span: x.span,
        key: model_ir_expr(x.key),
        value: model_ir_expr(x.value),
        computed: x.computed,
    }
}

/// The model of one [`ShorthandProperty`].
pub open spec fn model_shorthand_property(x: ShorthandProperty) -> SpecShorthandProperty
{
    SpecShorthandProperty {
        span: x.span,
        name: x.name@,
    }
}

/// The model of one [`MethodProperty`].
pub open spec fn model_method_property(x: MethodProperty) -> SpecMethodProperty
    decreases x,
{
    SpecMethodProperty {
        span: x.span,
        key: model_ir_expr(x.key),
        params: model_param_seq(x.params@),
        body: model_block(x.body),
        computed: x.computed,
        is_async: x.is_async,
        is_generator: x.is_generator,
    }
}

/// The model of one [`AccessorProperty`].
pub open spec fn model_accessor_property(x: AccessorProperty) -> SpecAccessorProperty
    decreases x,
{
    SpecAccessorProperty {
        span: x.span,
        key: model_ir_expr(x.key),
        accessor_kind: x.accessor_kind,
        params: model_param_seq(x.params@),
        body: model_block(x.body),
    }
}

/// The model of one [`SpreadProperty`].
pub open spec fn model_spread_property(x: SpreadProperty) -> SpecSpreadProperty
    decreases x,
{
    SpecSpreadProperty {
        span: x.span,
        argument: model_ir_expr(x.argument),
    }
}

/// The model of one [`NewExpr`].
pub open spec fn model_new_expr(x: NewExpr) -> SpecNewExpr
    decreases x,
{
    SpecNewExpr {
        span: x.span,
        callee: Box::new(model_ir_expr(*x.callee)),
        arguments: model_ir_expr_seq(x.arguments@),
    }
}

/// The model of one [`AwaitExpr`].
pub open spec fn model_await_expr(x: AwaitExpr) -> SpecAwaitExpr
    decreases x,
{
    SpecAwaitExpr {
        span: x.span,
        argument: Box::new(model_ir_expr(*x.argument)),
    }
}

/// The model of one [`YieldExpr`].
pub open spec fn model_yield_expr(x: YieldExpr) -> SpecYieldExpr
    decreases x,
{
    SpecYieldExpr {
        span: x.span,
        argument: match x.argument { Some(x) => Some(Box::new(model_ir_expr(*x))), None => None },
        delegate: x.delegate,
    }
}

/// The model of one [`SpreadExpr`].
pub open spec fn model_spread_expr(x: SpreadExpr) -> SpecSpreadExpr
    decreases x,
{
    SpecSpreadExpr {
        span: x.span,
        argument: Box::new(model_ir_expr(*x.argument)),
    }
}

/// The model of one [`TemplateLiteral`].
pub open spec fn model_template_literal(x: TemplateLiteral) -> SpecTemplateLiteral
    decreases x,
{
    SpecTemplateLiteral {
        span: x.span,
        quasis: model_string_seq(x.quasis@),
        expressions: model_ir_expr_seq(x.expressions@),
    }
}

/// The model of one [`TaggedTemplate`].
pub open spec fn model_tagged_template(x: TaggedTemplate) -> SpecTaggedTemplate
    decreases x,
{
    SpecTaggedTemplate {
        span: x.span,
        tag: Box::new(model_ir_expr(*x.tag)),
        quasi: Box::new(model_ir_expr(*x.quasi)),
    }
}

/// The model of one [`Pattern`].
pub open spec fn model_pattern(x: Pattern) -> SpecPattern
    decreases x,
{
    match x {
        Pattern::Object(y) => SpecPattern::Object(model_object_pattern(y)),
        Pattern::Array(y) => SpecPattern::Array(model_array_pattern(y)),
        Pattern::Assignment(y) => SpecPattern::Assignment(model_assignment_pattern(y)),
        Pattern::Rest(y) => SpecPattern::Rest(model_rest_pattern(y)),
        Pattern::Opaque(y) => SpecPattern::Opaque(model_opaque_expr(y)),
    }
}

/// The model of one [`ObjectPattern`].
pub open spec fn model_object_pattern(x: ObjectPattern) -> SpecObjectPattern
    decreases x,
{
    SpecObjectPattern {
        span: x.span,
        properties: model_object_pattern_property_seq(x.properties@),
    }
}

/// The model of one [`ObjectPatternProperty`].
pub open spec fn model_object_pattern_property(x: ObjectPatternProperty) -> SpecObjectPatternProperty
    decreases x,
{
    match x {
        ObjectPatternProperty::KeyValue(y) => SpecObjectPatternProperty::KeyValue(model_pattern_key_value(y)),
        ObjectPatternProperty::Shorthand(y) => SpecObjectPatternProperty::Shorthand(model_pattern_shorthand(y)),
        ObjectPatternProperty::Rest(y) => SpecObjectPatternProperty::Rest(model_pattern_rest(y)),
    }
}

/// The model of one [`PatternKeyValue`].
pub open spec fn model_pattern_key_value(x: PatternKeyValue) -> SpecPatternKeyValue
    decreases x,
{
    SpecPatternKeyValue {
        span: x.span,
        key: x.key@,
        value: model_pattern(x.value),
    }
}

/// The model of one [`PatternShorthand`].
pub open spec fn model_pattern_shorthand(x: PatternShorthand) -> SpecPatternShorthand
    decreases x,
{
    SpecPatternShorthand {
        span: x.span,
        name: x.name@,
        default_value: match x.default_value { Some(x) => Some(model_ir_expr(x)), None => None },
    }
}

/// The model of one [`PatternRest`].
pub open spec fn model_pattern_rest(x: PatternRest) -> SpecPatternRest
{
    SpecPatternRest {
        span: x.span,
        name: x.name@,
    }
}

/// The model of one [`ArrayPattern`].
pub open spec fn model_array_pattern(x: ArrayPattern) -> SpecArrayPattern
    decreases x,
{
    SpecArrayPattern {
        span: x.span,
        elements: model_opt_pattern_seq(x.elements@),
    }
}

/// The model of one [`AssignmentPattern`].
pub open spec fn model_assignment_pattern(x: AssignmentPattern) -> SpecAssignmentPattern
    decreases x,
{
    SpecAssignmentPattern {
        span: x.span,
        left: Box::new(model_pattern(*x.left)),
        right: model_ir_expr(x.right),
    }
}

/// The model of one [`RestPattern`].
pub open spec fn model_rest_pattern(x: RestPattern) -> SpecRestPattern
    decreases x,
{
    SpecRestPattern {
        span: x.span,
        argument: Box::new(model_pattern(*x.argument)),
    }
}

/// The model of one [`OpaqueExpr`].
pub open spec fn model_opaque_expr(x: OpaqueExpr) -> SpecOpaqueExpr
{
    SpecOpaqueExpr {
        span: x.span,
        cst_kind: x.cst_kind@,
        text: x.text@,
    }
}

/// The model of one [`OpaqueNode`].
pub open spec fn model_opaque_node(x: OpaqueNode) -> SpecOpaqueNode
{
    SpecOpaqueNode {
        span: x.span,
        cst_kind: x.cst_kind@,
        text: x.text@,
    }
}

/// The model of a sequence of `ExportSpecifier`, element by element.
pub open spec fn model_export_specifier_seq(s: Seq<ExportSpecifier>) -> Seq<SpecExportSpecifier>
    decreases s,
{
    if s.len() == 0 {
        Seq::empty()
    } else {
        model_export_specifier_seq(s.drop_last()).push(model_export_specifier(s.last()))
    }
}

/// The model of a sequence has its length, and models it element by element.
pub proof fn lemma_model_export_specifier_seq(s: Seq<ExportSpecifier>)
    ensures
        model_export_specifier_seq(s).len() == s.len(),
        forall|i: int| 0 <= i < s.len() ==> #[trigger] model_export_specifier_seq(s)[i] == model_export_specifier(s[i]),
    decreases s.len(),
{
    if s.len() > 0 {
        lemma_model_export_specifier_seq(s.drop_last());
    }
}

/// The model of a sequence is as long as the sequence.
pub broadcast proof fn lemma_model_export_specifier_seq_len(s: Seq<ExportSpecifier>)
    ensures
        #[trigger] model_export_specifier_seq(s).len() == s.len(),
    decreases s.len(),
{
    if s.len() > 0 {
        lemma_model_export_specifier_seq_len(s.drop_last());
    }
}

/// The model of a concatenation is the concatenation of the models.
pub proof fn lemma_model_export_specifier_seq_concat(a: Seq<ExportSpecifier>, b: Seq<ExportSpecifier>)
    ensures
        model_export_specifier_seq(a + b) == model_export_specifier_seq(a) + model_export_specifier_seq(b),
    decreases b.len(),
{
    if b.len() == 0 {
        assert(a + b =~= a);
    } else {
        lemma_model_export_specifier_seq_concat(a, b.drop_last());
        assert((a + b).drop_last() =~= a + b.drop_last());
    }
}

/// Pushing onto a sequence pushes its model.
pub proof fn lemma_model_export_specifier_seq_push(s: Seq<ExportSpecifier>, y: ExportSpecifier)
    ensures
        model_export_specifier_seq(s.push(y)) == model_export_specifier_seq(s).push(model_export_specifier(y)),
{
    assert(s.push(y).drop_last() =~= s);
}

/// The model of a sequence of `ImportSpecifier`, element by element.
pub open spec fn model_import_specifier_seq(s: Seq<ImportSpecifier>) -> Seq<SpecImportSpecifier>
    decreases s,
{
    if s.len() == 0 {
        Seq::empty()
    } else {
        model_import_specifier_seq(s.drop_last()).push(model_import_specifier(s.last()))
    }
}

/// The model of a sequence has its length, and models it element by element.
pub proof fn lemma_model_import_specifier_seq(s: Seq<ImportSpecifier>)
    ensures
        model_import_specifier_seq(s).len() == s.len(),
        forall|i: int| 0 <= i < s.len() ==> #[trigger] model_import_specifier_seq(s)[i] == model_import_specifier(s[i]),
    decreases s.len(),
{
    if s.len() > 0 {
        lemma_model_import_specifier_seq(s.drop_last());
    }
}

/// The model of a sequence is as long as the sequence.
pub broadcast proof fn lemma_model_import_specifier_seq_len(s: Seq<ImportSpecifier>)
    ensures
        #[trigger] model_import_specifier_seq(s).len() == s.len(),
    decreases s.len(),
{
    if s.len() > 0 {
        lemma_model_import_specifier_seq_len(s.drop_last());
    }
}

/// The model of a concatenation is the concatenation of the models.
pub proof fn lemma_model_import_specifier_seq_concat(a: Seq<ImportSpecifier>, b: Seq<ImportSpecifier>)
    ensures
        model_import_specifier_seq(a + b) == model_import_specifier_seq(a) + model_import_specifier_seq(b),
    decreases b.len(),
{
    if b.len() == 0 {
        assert(a + b =~= a);
    } else {
        lemma_model_import_specifier_seq_concat(a, b.drop_last());
        assert((a + b).drop_last() =~= a + b.drop_last());
    }
}

/// Pushing onto a sequence pushes its model.
pub proof fn lemma_model_import_specifier_seq_push(s: Seq<ImportSpecifier>, y: ImportSpecifier)
    ensures
        model_import_specifier_seq(s.push(y)) == model_import_specifier_seq(s).push(model_import_specifier(y)),
{
    assert(s.push(y).drop_last() =~= s);
}

/// The model of a sequence of `IrExpr`, element by element.
pub open spec fn model_ir_expr_seq(s: Seq<IrExpr>) -> Seq<SpecIrExpr>
    decreases s,
{
    if s.len() == 0 {
        Seq::empty()
    } else {
        model_ir_expr_seq(s.drop_last()).push(model_ir_expr(s.last()))
    }
}

/// The model of a sequence has its length, and models it element by element.
pub proof fn lemma_model_ir_expr_seq(s: Seq<IrExpr>)
    ensures
        model_ir_expr_seq(s).len() == s.len(),
        forall|i: int| 0 <= i < s.len() ==> #[trigger] model_ir_expr_seq(s)[i] == model_ir_expr(s[i]),
    decreases s.len(),
{
    if s.len() > 0 {
        lemma_model_ir_expr_seq(s.drop_last());
    }
}

/// The model of a sequence is as long as the sequence.
pub broadcast proof fn lemma_model_ir_expr_seq_len(s: Seq<IrExpr>)
    ensures
        #[trigger] model_ir_expr_seq(s).len() == s.len(),
    decreases s.len(),
{
    if s.len() > 0 {
        lemma_model_ir_expr_seq_len(s.drop_last());
    }
}

/// The model of a concatenation is the concatenation of the models.
pub proof fn lemma_model_ir_expr_seq_concat(a: Seq<IrExpr>, b: Seq<IrExpr>)
    ensures
        model_ir_expr_seq(a + b) == model_ir_expr_seq(a) + model_ir_expr_seq(b),
    decreases b.len(),
{
    if b.len() == 0 {
        assert(a + b =~= a);
    } else {
        lemma_model_ir_expr_seq_concat(a, b.drop_last());
        assert((a + b).drop_last() =~= a + b.drop_last());
    }
}

/// Pushing onto a sequence pushes its model.
pub proof fn lemma_model_ir_expr_seq_push(s: Seq<IrExpr>, y: IrExpr)
    ensures
        model_ir_expr_seq(s.push(y)) == model_ir_expr_seq(s).push(model_ir_expr(y)),
{
    assert(s.push(y).drop_last() =~= s);
}

/// The model of a sequence of `IrNode`, element by element.
pub open spec fn model_ir_node_seq(s: Seq<IrNode>) -> Seq<SpecIrNode>
    decreases s,
{
    if s.len() == 0 {
        Seq::empty()
    } else {
        model_ir_node_seq(s.drop_last()).push(model_ir_node(s.last()))
    }
}

/// The model of a sequence has its length, and models it element by element.
pub proof fn lemma_model_ir_node_seq(s: Seq<IrNode>)
    ensures
        model_ir_node_seq(s).len() == s.len(),
        forall|i: int| 0 <= i < s.len() ==> #[trigger] model_ir_node_seq(s)[i] == model_ir_node(s[i]),
    decreases s.len(),
{
    if s.len() > 0 {
        lemma_model_ir_node_seq(s.drop_last());
    }
}

/// The model of a sequence is as long as the sequence.
pub broadcast proof fn lemma_model_ir_node_seq_len(s: Seq<IrNode>)
    ensures
        #[trigger] model_ir_node_seq(s).len() == s.len(),
    decreases s.len(),
{
    if s.len() > 0 {
        lemma_model_ir_node_seq_len(s.drop_last());
    }
}

/// The model of a concatenation is the concatenation of the models.
pub proof fn lemma_model_ir_node_seq_concat(a: Seq<IrNode>, b: Seq<IrNode>)
    ensures
        model_ir_node_seq(a + b) == model_ir_node_seq(a) + model_ir_node_seq(b),
    decreases b.len(),
{
    if b.len() == 0 {
        assert(a + b =~= a);
    } else {
        lemma_model_ir_node_seq_concat(a, b.drop_last());
        assert((a + b).drop_last() =~= a + b.drop_last());
    }
}

/// Pushing onto a sequence pushes its model.
pub proof fn lemma_model_ir_node_seq_push(s: Seq<IrNode>, y: IrNode)
    ensures
        model_ir_node_seq(s.push(y)) == model_ir_node_seq(s).push(model_ir_node(y)),
{
    assert(s.push(y).drop_last() =~= s);
}

/// The model of a sequence of `ObjectPatternProperty`, element by element.
pub open spec fn model_object_pattern_property_seq(s: Seq<ObjectPatternProperty>) -> Seq<SpecObjectPatternProperty>
    decreases s,
{
    if s.len() == 0 {
        Seq::empty()
    } else {
        model_object_pattern_property_seq(s.drop_last()).push(model_object_pattern_property(s.last()))
    }
}

/// The model of a sequence has its length, and models it element by element.
pub proof fn lemma_model_object_pattern_property_seq(s: Seq<ObjectPatternProperty>)
    ensures
        model_object_pattern_property_seq(s).len() == s.len(),
        forall|i: int| 0 <= i < s.len() ==> #[trigger] model_object_pattern_property_seq(s)[i] == model_object_pattern_property(s[i]),
    decreases s.len(),
{
    if s.len() > 0 {
        lemma_model_object_pattern_property_seq(s.drop_last());
    }
}

/// The model of a sequence is as long as the sequence.
pub broadcast proof fn lemma_model_object_pattern_property_seq_len(s: Seq<ObjectPatternProperty>)
    ensures
        #[trigger] model_object_pattern_property_seq(s).len() == s.len(),
    decreases s.len(),
{
    if s.len() > 0 {
        lemma_model_object_pattern_property_seq_len(s.drop_last());
    }
}

/// The model of a concatenation is the concatenation of the models.
pub proof fn lemma_model_object_pattern_property_seq_concat(a: Seq<ObjectPatternProperty>, b: Seq<ObjectPatternProperty>)
    ensures
        model_object_pattern_property_seq(a + b) == model_object_pattern_property_seq(a) + model_object_pattern_property_seq(b),
    decreases b.len(),
{
    if b.len() == 0 {
        assert(a + b =~= a);
    } else {
        lemma_model_object_pattern_property_seq_concat(a, b.drop_last());
        assert((a + b).drop_last() =~= a + b.drop_last());
    }
}

/// Pushing onto a sequence pushes its model.
pub proof fn lemma_model_object_pattern_property_seq_push(s: Seq<ObjectPatternProperty>, y: ObjectPatternProperty)
    ensures
        model_object_pattern_property_seq(s.push(y)) == model_object_pattern_property_seq(s).push(model_object_pattern_property(y)),
{
    assert(s.push(y).drop_last() =~= s);
}

/// The model of a sequence of `ObjectProperty`, element by element.
pub open spec fn model_object_property_seq(s: Seq<ObjectProperty>) -> Seq<SpecObjectProperty>
    decreases s,
{
    if s.len() == 0 {
        Seq::empty()
    } else {
        model_object_property_seq(s.drop_last()).push(model_object_property(s.last()))
    }
}

/// The model of a sequence has its length, and models it element by element.
pub proof fn lemma_model_object_property_seq(s: Seq<ObjectProperty>)
    ensures
        model_object_property_seq(s).len() == s.len(),
        forall|i: int| 0 <= i < s.len() ==> #[trigger] model_object_property_seq(s)[i] == model_object_property(s[i]),
    decreases s.len(),
{
    if s.len() > 0 {
        lemma_model_object_property_seq(s.drop_last());
    }
}

/// The model of a sequence is as long as the sequence.
pub broadcast proof fn lemma_model_object_property_seq_len(s: Seq<ObjectProperty>)
    ensures
        #[trigger] model_object_property_seq(s).len() == s.len(),
    decreases s.len(),
{
    if s.len() > 0 {
        lemma_model_object_property_seq_len(s.drop_last());
    }
}

/// The model of a concatenation is the concatenation of the models.
pub proof fn lemma_model_object_property_seq_concat(a: Seq<ObjectProperty>, b: Seq<ObjectProperty>)
    ensures
        model_object_property_seq(a + b) == model_object_property_seq(a) + model_object_property_seq(b),
    decreases b.len(),
{
    if b.len() == 0 {
        assert(a + b =~= a);
    } else {
        lemma_model_object_property_seq_concat(a, b.drop_last());
        assert((a + b).drop_last() =~= a + b.drop_last());
    }
}

/// Pushing onto a sequence pushes its model.
pub proof fn lemma_model_object_property_seq_push(s: Seq<ObjectProperty>, y: ObjectProperty)
    ensures
        model_object_property_seq(s.push(y)) == model_object_property_seq(s).push(model_object_property(y)),
{
    assert(s.push(y).drop_last() =~= s);
}

/// The model of a sequence of `Option<IrExpr>`, element by element.
pub open spec fn model_opt_ir_expr_seq(s: Seq<Option<IrExpr>>) -> Seq<Option<SpecIrExpr>>
    decreases s,
{
    if s.len() == 0 {
        Seq::empty()
    } else {
        model_opt_ir_expr_seq(s.drop_last()).push(match s.last() { Some(x) => Some(model_ir_expr(x)), None => None })
    }
}

/// The model of a sequence has its length, and models it element by element.
pub proof fn lemma_model_opt_ir_expr_seq(s: Seq<Option<IrExpr>>)
    ensures
        model_opt_ir_expr_seq(s).len() == s.len(),
        forall|i: int| 0 <= i < s.len() ==> #[trigger] model_opt_ir_expr_seq(s)[i] == match s[i] { Some(x) => Some(model_ir_expr(x)), None => None },
    decreases s.len(),
{
    if s.len() > 0 {
        lemma_model_opt_ir_expr_seq(s.drop_last());
    }
}

/// The model of a sequence is as long as the sequence.
pub broadcast proof fn lemma_model_opt_ir_expr_seq_len(s: Seq<Option<IrExpr>>)
    ensures
        #[trigger] model_opt_ir_expr_seq(s).len() == s.len(),
    decreases s.len(),
{
    if s.len() > 0 {
        lemma_model_opt_ir_expr_seq_len(s.drop_last());
    }
}

/// The model of a concatenation is the concatenation of the models.
pub proof fn lemma_model_opt_ir_expr_seq_concat(a: Seq<Option<IrExpr>>, b: Seq<Option<IrExpr>>)
    ensures
        model_opt_ir_expr_seq(a + b) == model_opt_ir_expr_seq(a) + model_opt_ir_expr_seq(b),
    decreases b.len(),
{
    if b.len() == 0 {
        assert(a + b =~= a);
    } else {
        lemma_model_opt_ir_expr_seq_concat(a, b.drop_last());
        assert((a + b).drop_last() =~= a + b.drop_last());
    }
}

/// Pushing onto a sequence pushes its model.
pub proof fn lemma_model_opt_ir_expr_seq_push(s: Seq<Option<IrExpr>>, y: Option<IrExpr>)
    ensures
        model_opt_ir_expr_seq(s.push(y)) == model_opt_ir_expr_seq(s).push(match y { Some(x) => Some(model_ir_expr(x)), None => None }),
{
    assert(s.push(y).drop_last() =~= s);
}

/// The model of a sequence of `Option<Pattern>`, element by element.
pub open spec fn model_opt_pattern_seq(s: Seq<Option<Pattern>>) -> Seq<Option<SpecPattern>>
    decreases s,
{
    if s.len() == 0 {
        Seq::empty()
    } else {
        model_opt_pattern_seq(s.drop_last()).push(match s.last() { Some(x) => Some(model_pattern(x)), None => None })
    }
}

/// The model of a sequence has its length, and models it element by element.
pub proof fn lemma_model_opt_pattern_seq(s: Seq<Option<Pattern>>)
    ensures
        model_opt_pattern_seq(s).len() == s.len(),
        forall|i: int| 0 <= i < s.len() ==> #[trigger] model_opt_pattern_seq(s)[i] == match s[i] { Some(x) => Some(model_pattern(x)), None => None },
    decreases s.len(),
{
    if s.len() > 0 {
        lemma_model_opt_pattern_seq(s.drop_last());
    }
}

/// The model of a sequence is as long as the sequence.
pub broadcast proof fn lemma_model_opt_pattern_seq_len(s: Seq<Option<Pattern>>)
    ensures
        #[trigger] model_opt_pattern_seq(s).len() == s.len(),
    decreases s.len(),
{
    if s.len() > 0 {
        lemma_model_opt_pattern_seq_len(s.drop_last());
    }
}

/// The model of a concatenation is the concatenation of the models.
pub proof fn lemma_model_opt_pattern_seq_concat(a: Seq<Option<Pattern>>, b: Seq<Option<Pattern>>)
    ensures
        model_opt_pattern_seq(a + b) == model_opt_pattern_seq(a) + model_opt_pattern_seq(b),
    decreases b.len(),
{
    if b.len() == 0 {
        assert(a + b =~= a);
    } else {
        lemma_model_opt_pattern_seq_concat(a, b.drop_last());
        assert((a + b).drop_last() =~= a + b.drop_last());
    }
}

/// Pushing onto a sequence pushes its model.
pub proof fn lemma_model_opt_pattern_seq_push(s: Seq<Option<Pattern>>, y: Option<Pattern>)
    ensures
        model_opt_pattern_seq(s.push(y)) == model_opt_pattern_seq(s).push(match y { Some(x) => Some(model_pattern(x)), None => None }),
{
    assert(s.push(y).drop_last() =~= s);
}

/// The model of a sequence of `Param`, element by element.
pub open spec fn model_param_seq(s: Seq<Param>) -> Seq<SpecParam>
    decreases s,
{
    if s.len() == 0 {
        Seq::empty()
    } else {
        model_param_seq(s.drop_last()).push(model_param(s.last()))
    }
}

/// The model of a sequence has its length, and models it element by element.
pub proof fn lemma_model_param_seq(s: Seq<Param>)
    ensures
        model_param_seq(s).len() == s.len(),
        forall|i: int| 0 <= i < s.len() ==> #[trigger] model_param_seq(s)[i] == model_param(s[i]),
    decreases s.len(),
{
    if s.len() > 0 {
        lemma_model_param_seq(s.drop_last());
    }
}

/// The model of a sequence is as long as the sequence.
pub broadcast proof fn lemma_model_param_seq_len(s: Seq<Param>)
    ensures
        #[trigger] model_param_seq(s).len() == s.len(),
    decreases s.len(),
{
    if s.len() > 0 {
        lemma_model_param_seq_len(s.drop_last());
    }
}

/// The model of a concatenation is the concatenation of the models.
pub proof fn lemma_model_param_seq_concat(a: Seq<Param>, b: Seq<Param>)
    ensures
        model_param_seq(a + b) == model_param_seq(a) + model_param_seq(b),
    decreases b.len(),
{
    if b.len() == 0 {
        assert(a + b =~= a);
    } else {
        lemma_model_param_seq_concat(a, b.drop_last());
        assert((a + b).drop_last() =~= a + b.drop_last());
    }
}

/// Pushing onto a sequence pushes its model.
pub proof fn lemma_model_param_seq_push(s: Seq<Param>, y: Param)
    ensures
        model_param_seq(s.push(y)) == model_param_seq(s).push(model_param(y)),
{
    assert(s.push(y).drop_last() =~= s);
}

/// The model of a sequence of `String`, element by element.
pub open spec fn model_string_seq(s: Seq<String>) -> Seq<Seq<char>>
    decreases s,
{
    if s.len() == 0 {
        Seq::empty()
    } else {
        model_string_seq(s.drop_last()).push(s.last()@)
    }
}

/// The model of a sequence has its length, and models it element by element.
pub proof fn lemma_model_string_seq(s: Seq<String>)
    ensures
        model_string_seq(s).len() == s.len(),
        forall|i: int| 0 <= i < s.len() ==> #[trigger] model_string_seq(s)[i] == s[i]@,
    decreases s.len(),
{
    if s.len() > 0 {
        lemma_model_string_seq(s.drop_last());
    }
}

/// The model of a sequence is as long as the sequence.
pub broadcast proof fn lemma_model_string_seq_len(s: Seq<String>)
    ensures
        #[trigger] model_string_seq(s).len() == s.len(),
    decreases s.len(),
{
    if s.len() > 0 {
        lemma_model_string_seq_len(s.drop_last());
    }
}

/// The model of a concatenation is the concatenation of the models.
pub proof fn lemma_model_string_seq_concat(a: Seq<String>, b: Seq<String>)
    ensures
        model_string_seq(a + b) == model_string_seq(a) + model_string_seq(b),
    decreases b.len(),
{
    if b.len() == 0 {
        assert(a + b =~= a);
    } else {
        lemma_model_string_seq_concat(a, b.drop_last());
        assert((a + b).drop_last() =~= a + b.drop_last());
    }
}

/// Pushing onto a sequence pushes its model.
pub proof fn lemma_model_string_seq_push(s: Seq<String>, y: String)
    ensures
        model_string_seq(s.push(y)) == model_string_seq(s).push(y@),
{
    assert(s.push(y).drop_last() =~= s);
}

/// The model of a sequence of `SwitchCase`, element by element.
pub open spec fn model_switch_case_seq(s: Seq<SwitchCase>) -> Seq<SpecSwitchCase>
    decreases s,
{
    if s.len() == 0 {
        Seq::empty()
    } else {
        model_switch_case_seq(s.drop_last()).push(model_switch_case(s.last()))
    }
}

/// The model of a sequence has its length, and models it element by element.
pub proof fn lemma_model_switch_case_seq(s: Seq<SwitchCase>)
    ensures
        model_switch_case_seq(s).len() == s.len(),
        forall|i: int| 0 <= i < s.len() ==> #[trigger] model_switch_case_seq(s)[i] == model_switch_case(s[i]),
    decreases s.len(),
{
    if s.len() > 0 {
        lemma_model_switch_case_seq(s.drop_last());
    }
}

/// The model of a sequence is as long as the sequence.
pub broadcast proof fn lemma_model_switch_case_seq_len(s: Seq<SwitchCase>)
    ensures
        #[trigger] model_switch_case_seq(s).len() == s.len(),
    decreases s.len(),
{
    if s.len() > 0 {
        lemma_model_switch_case_seq_len(s.drop_last());
    }
}

/// The model of a concatenation is the concatenation of the models.
pub proof fn lemma_model_switch_case_seq_concat(a: Seq<SwitchCase>, b: Seq<SwitchCase>)
    ensures
        model_switch_case_seq(a + b) == model_switch_case_seq(a) + model_switch_case_seq(b),
    decreases b.len(),
{
    if b.len() == 0 {
        assert(a + b =~= a);
    } else {
        lemma_model_switch_case_seq_concat(a, b.drop_last());
        assert((a + b).drop_last() =~= a + b.drop_last());
    }
}

/// Pushing onto a sequence pushes its model.
pub proof fn lemma_model_switch_case_seq_push(s: Seq<SwitchCase>, y: SwitchCase)
    ensures
        model_switch_case_seq(s.push(y)) == model_switch_case_seq(s).push(model_switch_case(y)),
{
    assert(s.push(y).drop_last() =~= s);
}

/// The lengths of the models of sequences.
pub broadcast group group_model_len {
    lemma_model_export_specifier_seq_len,
    lemma_model_import_specifier_seq_len,
    lemma_model_ir_expr_seq_len,
    lemma_model_ir_node_seq_len,
    lemma_model_object_pattern_property_seq_len,
    lemma_model_object_property_seq_len,
    lemma_model_opt_ir_expr_seq_len,
    lemma_model_opt_pattern_seq_len,
    lemma_model_param_seq_len,
    lemma_model_string_seq_len,
    lemma_model_switch_case_seq_len,
}

impl View for IrModule {
    type V = SpecIrModule;

    open spec fn view(&self) -> SpecIrModule {
        model_ir_module(*self)
    }
}

impl View for IrNode {
    type V = SpecIrNode;

    open spec fn view(&self) -> SpecIrNode {
        model_ir_node(*self)
    }
}

impl View for IrExpr {
    type V = SpecIrExpr;

    open spec fn view(&self) -> SpecIrExpr {
        model_ir_expr(*self)
    }
}

impl View for VariableDecl {
    type V = SpecVariableDecl;

    open spec fn view(&self) -> SpecVariableDecl {
        model_variable_decl(*self)
    }
}

impl View for FunctionDecl {
    type V = SpecFunctionDecl;

    open spec fn view(&self) -> SpecFunctionDecl {
        model_function_decl(*self)
    }
}

impl View for Param {
    type V = SpecParam;

    open spec fn view(&self) -> SpecParam {
        model_param(*self)
    }
}

impl View for ClassDecl {
    type V = SpecClassDecl;

    open spec fn view(&self) -> SpecClassDecl {
        model_class_decl(*self)
    }
}

impl View for MethodDefinition {
    type V = SpecMethodDefinition;

    open spec fn view(&self) -> SpecMethodDefinition {
        model_method_definition(*self)
    }
}

impl View for PropertyDefinition {
    type V = SpecPropertyDefinition;

    open spec fn view(&self) -> SpecPropertyDefinition {
        model_property_definition(*self)
    }
}

impl View for ImportDecl {
    type V = SpecImportDecl;

    open spec fn view(&self) -> SpecImportDecl {
        model_import_decl(*self)
    }
}

impl View for ImportSpecifier {
    type V = SpecImportSpecifier;

    open spec fn view(&self) -> SpecImportSpecifier {
        model_import_specifier(*self)
    }
}

impl View for ImportDefault {
    type V = SpecImportDefault;

    open spec fn view(&self) -> SpecImportDefault {
        model_import_default(*self)
    }
}

impl View for ImportNamed {
    type V = SpecImportNamed;

    open spec fn view(&self) -> SpecImportNamed {
        model_import_named(*self)
    }
}

impl View for ImportNamespace {
    type V = SpecImportNamespace;

    open spec fn view(&self) -> SpecImportNamespace {
        model_import_namespace(*self)
    }
}

impl View for ExportDecl {
    type V = SpecExportDecl;

    open spec fn view(&self) -> SpecExportDecl {
        model_export_decl(*self)
    }
}

impl View for ExportSpecifier {
    type V = SpecExportSpecifier;

    open spec fn view(&self) -> SpecExportSpecifier {
        model_export_specifier(*self)
    }
}

impl View for IfStmt {
    type V = SpecIfStmt;

    open spec fn view(&self) -> SpecIfStmt {
        model_if_stmt(*self)
    }
}

impl View for ForStmt {
    type V = SpecForStmt;

    open spec fn view(&self) -> SpecForStmt {
        model_for_stmt(*self)
    }
}

impl View for WhileStmt {
    type V = SpecWhileStmt;

    open spec fn view(&self) -> SpecWhileStmt {
        model_while_stmt(*self)
    }
}

impl View for SwitchStmt {
    type V = SpecSwitchStmt;

    open spec fn view(&self) -> SpecSwitchStmt {
        model_switch_stmt(*self)
    }
}

impl View for SwitchCase {
    type V = SpecSwitchCase;

    open spec fn view(&self) -> SpecSwitchCase {
        model_switch_case(*self)
    }
}

impl View for TryCatchStmt {
    type V = SpecTryCatchStmt;

    open spec fn view(&self) -> SpecTryCatchStmt {
        model_try_catch_stmt(*self)
    }
}

impl View for CatchClause {
    type V = SpecCatchClause;

    open spec fn view(&self) -> SpecCatchClause {
        model_catch_clause(*self)
    }
}

impl View for ReturnStmt {
    type V = SpecReturnStmt;

    open spec fn view(&self) -> SpecReturnStmt {
        model_return_stmt(*self)
    }
}

impl View for ThrowStmt {
    type V = SpecThrowStmt;

    open spec fn view(&self) -> SpecThrowStmt {
        model_throw_stmt(*self)
    }
}

impl View for BreakStmt {
    type V = SpecBreakStmt;

    open spec fn view(&self) -> SpecBreakStmt {
        model_break_stmt(*self)
    }
}

impl View for ContinueStmt {
    type V = SpecContinueStmt;

    open spec fn view(&self) -> SpecContinueStmt {
        model_continue_stmt(*self)
    }
}

impl View for LabeledStmt {
    type V = SpecLabeledStmt;

    open spec fn view(&self) -> SpecLabeledStmt {
        model_labeled_stmt(*self)
    }
}

impl View for ExpressionStatement {
    type V = SpecExpressionStatement;

    open spec fn view(&self) -> SpecExpressionStatement {
        model_expression_statement(*self)
    }
}

impl View for Assignment {
    type V = SpecAssignment;

    open spec fn view(&self) -> SpecAssignment {
        model_assignment(*self)
    }
}

impl View for Call {
    type V = SpecCall;

    open spec fn view(&self) -> SpecCall {
        model_call(*self)
    }
}

impl View for MemberAccess {
    type V = SpecMemberAccess;

    open spec fn view(&self) -> SpecMemberAccess {
        model_member_access(*self)
    }
}

impl View for BinaryExpr {
    type V = SpecBinaryExpr;

    open spec fn view(&self) -> SpecBinaryExpr {
        model_binary_expr(*self)
    }
}

impl View for Identifier {
    type V = SpecIdentifier;

    open spec fn view(&self) -> SpecIdentifier {
        model_identifier(*self)
    }
}

impl View for Literal {
    type V = SpecLiteral;

    open spec fn view(&self) -> SpecLiteral {
        model_literal(*self)
    }
}

impl View for LiteralValue {
    type V = SpecLiteralValue;

    open spec fn view(&self) -> SpecLiteralValue {
        model_literal_value(*self)
    }
}

impl View for Block {
    type V = SpecBlock;

    open spec fn view(&self) -> SpecBlock {
        model_block(*self)
    }
}

impl View for UnaryExpr {
    type V = SpecUnaryExpr;

    open spec fn view(&self) -> SpecUnaryExpr {
        model_unary_expr(*self)
    }
}

impl View for UpdateExpr {
    type V = SpecUpdateExpr;

    open spec fn view(&self) -> SpecUpdateExpr {
        model_update_expr(*self)
    }
}

impl View for ConditionalExpr {
    type V = SpecConditionalExpr;

    open spec fn view(&self) -> SpecConditionalExpr {
        model_conditional_expr(*self)
    }
}

impl View for ArrayExpr {
    type V = SpecArrayExpr;

    open spec fn view(&self) -> SpecArrayExpr {
        model_array_expr(*self)
    }
}

impl View for ObjectExpr {
    type V = SpecObjectExpr;

    open spec fn view(&self) -> SpecObjectExpr {
        model_object_expr(*self)
    }
}

impl View for ObjectProperty {
    type V = SpecObjectProperty;

    open spec fn view(&self) -> SpecObjectProperty {
        model_object_property(*self)
    }
}

impl View for KeyValueProperty {
    type V = SpecKeyValueProperty;

    open spec fn view(&self) -> SpecKeyValueProperty {
        model_key_value_property(*self)
    }
}

impl View for ShorthandProperty {
    type V = SpecShorthandProperty;

    open spec fn view(&self) -> SpecShorthandProperty {
        model_shorthand_property(*self)
    }
}

impl View for MethodProperty {
    type V = SpecMethodProperty;

    open spec fn view(&self) -> SpecMethodProperty {
        model_method_property(*self)
    }
}

impl View for AccessorProperty {
    type V = SpecAccessorProperty;

    open spec fn view(&self) -> SpecAccessorProperty {
        model_accessor_property(*self)
    }
}

impl View for SpreadProperty {
    type V = SpecSpreadProperty;

    open spec fn view(&self) -> SpecSpreadProperty {
        model_spread_property(*self)
    }
}

impl View for NewExpr {
    type V = SpecNewExpr;

    open spec fn view(&self) -> SpecNewExpr {
        model_new_expr(*self)
    }
}

impl View for AwaitExpr {
    type V = SpecAwaitExpr;

    open spec fn view(&self) -> SpecAwaitExpr {
        model_await_expr(*self)
    }
}

impl View for YieldExpr {
    type V = SpecYieldExpr;

    open spec fn view(&self) -> SpecYieldExpr {
        model_yield_expr(*self)
    }
}

impl View for SpreadExpr {
    type V = SpecSpreadExpr;

    open spec fn view(&self) -> SpecSpreadExpr {
        model_spread_expr(*self)
    }
}

impl View for TemplateLiteral {
    type V = SpecTemplateLiteral;

    open spec fn view(&self) -> SpecTemplateLiteral {
        model_template_literal(*self)
    }
}

impl View for TaggedTemplate {
    type V = SpecTaggedTemplate;

    open spec fn view(&self) -> SpecTaggedTemplate {
        model_tagged_template(*self)
    }
}

impl View for Pattern {
    type V = SpecPattern;

    open spec fn view(&self) -> SpecPattern {
        model_pattern(*self)
    }
}

impl View for ObjectPattern {
    type V = SpecObjectPattern;

    open spec fn view(&self) -> SpecObjectPattern {
        model_object_pattern(*self)
    }
}

impl View for ObjectPatternProperty {
    type V = SpecObjectPatternProperty;

    open spec fn view(&self) -> SpecObjectPatternProperty {
        model_object_pattern_property(*self)
    }
}

impl View for PatternKeyValue {
    type V = SpecPatternKeyValue;

    open spec fn view(&self) -> SpecPatternKeyValue {
        model_pattern_key_value(*self)
    }
}

impl View for PatternShorthand {
    type V = SpecPatternShorthand;

    open spec fn view(&self) -> SpecPatternShorthand {
        model_pattern_shorthand(*self)
    }
}

impl View for PatternRest {
    type V = SpecPatternRest;

    open spec fn view(&self) -> SpecPatternRest {
        model_pattern_rest(*self)
    }
}

impl View for ArrayPattern {
    type V = SpecArrayPattern;

    open spec fn view(&self) -> SpecArrayPattern {
        model_array_pattern(*self)
    }
}

impl View for AssignmentPattern {
    type V = SpecAssignmentPattern;

    open spec fn view(&self) -> SpecAssignmentPattern {
        model_assignment_pattern(*self)
    }
}

impl View for RestPattern {
    type V = SpecRestPattern;

    open spec fn view(&self) -> SpecRestPattern {
        model_rest_pattern(*self)
    }
}

impl View for OpaqueExpr {
    type V = SpecOpaqueExpr;

    open spec fn view(&self) -> SpecOpaqueExpr {
        model_opaque_expr(*self)
    }
}

impl View for OpaqueNode {
    type V = SpecOpaqueNode;

    open spec fn view(&self) -> SpecOpaqueNode {
        model_opaque_node(*self)
    }
}

/// The model of an optional string.
pub open spec fn model_opt_string(o: Option<String>) -> Option<Seq<char>> {
    match o {
        Some(x) => Some(x@),
        None => None,
    }
}

/// The model of an optional statement.
pub open spec fn model_opt_ir_node(o: Option<IrNode>) -> Option<SpecIrNode> {
    match o {
        Some(x) => Some(model_ir_node(x)),
        None => None,
    }
}

/// The model of an optional expression.
pub open spec fn model_opt_ir_expr(o: Option<IrExpr>) -> Option<SpecIrExpr> {
    match o {
        Some(x) => Some(model_ir_expr(x)),
        None => None,
    }
}

/// The model of an optional boxed statement.
pub open spec fn model_opt_box_ir_node(o: Option<Box<IrNode>>) -> Option<Box<SpecIrNode>> {
    match o {
        Some(x) => Some(Box::new(model_ir_node(*x))),
        None => None,
    }
}

/// The model of an optional pattern.
pub open spec fn model_opt_pattern(o: Option<Pattern>) -> Option<SpecPattern> {
    match o {
        Some(x) => Some(model_pattern(x)),
        None => None,
    }
}

} // verus!
