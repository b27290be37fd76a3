//! The common, language-neutral IR that lowering produces.
//!
//! Every node keeps the span of the source construct it stands for. The
//! spec-level model of each type lives in `ir_model`.
use vstd::prelude::*;

use crate::source::Span;

verus! {

/// Metadata that lowering attaches to declarations.
#[derive(Debug, Clone, Copy, PartialEq, Eq, Structural)]
pub struct Annotations {
    pub scope_level: Option<ScopeLevel>,
    pub declaration_kind: Option<DeclKind>,
    pub is_async: bool,
    pub is_generator: bool,
    pub is_export: bool,
    pub is_default: bool,
}

/// Annotations of a loop.
#[derive(Debug, Clone, Copy, PartialEq, Eq, Structural)]
pub struct ForAnnotations {
    pub kind: ForKind,
}

/// Which form of `for` a loop was written in.
#[derive(Debug, Clone, Copy, PartialEq, Eq, Structural)]
pub enum ForKind {
    Standard,
    In,
    Of,
}

/// The scope a declaration is registered in.
#[derive(Debug, Clone, Copy, PartialEq, Eq, Structural)]
pub enum ScopeLevel {
    Block,
    Function,
    Module,
}

/// The keyword or construct that declared a name.
#[derive(Debug, Clone, Copy, PartialEq, Eq, Structural)]
pub enum DeclKind {
    Let,
    Const,
    Var,
    Function,
    Class,
    Import,
}

/// Whether an object-literal accessor is a getter or a setter.
#[derive(Debug, Clone, Copy, PartialEq, Eq, Structural)]
pub enum AccessorKind {
    Getter,
    Setter,
}

/// The kind of a class method.
#[derive(Debug, Clone, Copy, PartialEq, Eq, Structural)]
pub enum MethodKind {
    Method,
    Getter,
    Setter,
    Constructor,
}

/// A TypeScript accessibility modifier.
#[derive(Debug, Clone, Copy, PartialEq, Eq, Structural)]
pub enum Accessibility {
    Public,
    Private,
    Protected,
}

impl Annotations {
    /// Annotations with no scope level, no declaration kind and every flag off.
    pub open spec fn spec_empty() -> Annotations {
        Annotations {
            scope_level: None,
            declaration_kind: None,
            is_async: false,
            is_generator: false,
            is_export: false,
            is_default: false,
        }
    }
}

impl Default for Annotations {
    fn default() -> (r: Annotations)
        ensures
            r == Annotations::spec_empty(),
    {
        Annotations {
            scope_level: None,
            declaration_kind: None,
            is_async: false,
            is_generator: false,
            is_export: false,
            is_default: false,
        }
    }
}

impl Default for ForKind {
    fn default() -> (r: ForKind)
        ensures
            r == ForKind::Standard,
    {
        ForKind::Standard
    }
}

impl Default for ForAnnotations {
    fn default() -> (r: ForAnnotations)
        ensures
            r == (ForAnnotations { kind: ForKind::Standard }),
    {
        ForAnnotations { kind: ForKind::Standard }
    }
}

/// A lowered program: the statements of the top level, in source order.
#[derive(Debug)]
pub struct IrModule {
    pub span: Span,
    pub body: Vec<IrNode>,
}

/// A statement-level IR node.
#[derive(Debug)]
pub enum IrNode {
    VariableDecl(VariableDecl),
    FunctionDecl(FunctionDecl),
    ClassDecl(ClassDecl),
    MethodDefinition(MethodDefinition),
    PropertyDefinition(PropertyDefinition),
    ImportDecl(ImportDecl),
    ExportDecl(ExportDecl),
    If(IfStmt),
    For(ForStmt),
    While(WhileStmt),
    Switch(SwitchStmt),
    TryCatch(TryCatchStmt),
    Return(ReturnStmt),
    Throw(ThrowStmt),
    Break(BreakStmt),
    Continue(ContinueStmt),
    Labeled(LabeledStmt),
    ExpressionStatement(ExpressionStatement),
    Block(Block),
    Opaque(OpaqueNode),
}

/// An expression-level IR node.
#[derive(Debug)]
pub enum IrExpr {
    Assignment(Assignment),
    Call(Call),
    MemberAccess(MemberAccess),
    BinaryExpr(BinaryExpr),
    Identifier(Identifier),
    Literal(Literal),
    UnaryExpr(UnaryExpr),
    UpdateExpr(UpdateExpr),
    ConditionalExpr(ConditionalExpr),
    ArrayExpr(ArrayExpr),
    ObjectExpr(ObjectExpr),
    FunctionExpr(FunctionDecl),
    NewExpr(NewExpr),
    AwaitExpr(AwaitExpr),
    YieldExpr(YieldExpr),
    SpreadExpr(SpreadExpr),
    TemplateLiteral(TemplateLiteral),
    TaggedTemplate(TaggedTemplate),
    Opaque(OpaqueExpr),
}

/// One declarator of a `let`, `const` or `var` declaration.
#[derive(Debug)]
pub struct VariableDecl {
    pub span: Span,
    pub name: String,
    pub value: Option<IrExpr>,
    pub pattern: Option<Pattern>,
    pub annotations: Annotations,
}

/// A function: declaration, expression or arrow function.
#[derive(Debug)]
pub struct FunctionDecl {
    pub span: Span,
    pub name: Option<String>,
    pub params: Vec<Param>,
    pub body: Block,
    pub annotations: Annotations,
    pub is_arrow: bool,
}

/// A formal parameter.
#[derive(Debug)]
pub struct Param {
    pub span: Span,
    pub name: String,
    pub pattern: Option<Pattern>,
    pub default_value: Option<IrExpr>,
}

/// A class declaration.
#[derive(Debug)]
pub struct ClassDecl {
    pub span: Span,
    pub name: Option<String>,
    pub super_class: Option<IrExpr>,
    pub body: Vec<IrNode>,
    pub annotations: Annotations,
}

/// A method of a class body.
#[derive(Debug)]
pub struct MethodDefinition {
    pub span: Span,
    pub key: IrExpr,
    pub kind: MethodKind,
    pub params: Vec<Param>,
    pub body: Block,
    pub is_static: bool,
    pub computed: bool,
    pub accessibility: Option<Accessibility>,
    pub is_async: bool,
    pub is_generator: bool,
}

/// A field of a class body.
#[derive(Debug)]
pub struct PropertyDefinition {
    pub span: Span,
    pub key: IrExpr,
    pub value: Option<IrExpr>,
    pub is_static: bool,
    pub computed: bool,
    pub accessibility: Option<Accessibility>,
}

/// An `import` statement.
#[derive(Debug)]
pub struct ImportDecl {
    pub span: Span,
    pub specifiers: Vec<ImportSpecifier>,
    pub source: String,
}

/// One binding brought in by an `import`.
#[derive(Debug)]
pub enum ImportSpecifier {
    Default(ImportDefault),
    Named(ImportNamed),
    Namespace(ImportNamespace),
}

/// `import x from ...`
#[derive(Debug)]
pub struct ImportDefault {
    pub span: Span,
    pub local: String,
}

/// `import { a as b } from ...`
#[derive(Debug)]
pub struct ImportNamed {
    pub span: Span,
    pub imported: String,
    pub local: String,
}

/// `import * as ns from ...`
#[derive(Debug)]
pub struct ImportNamespace {
    pub span: Span,
    pub local: String,
}

/// An `export` statement that does not export a function or class declaration.
#[derive(Debug)]
pub struct ExportDecl {
    pub span: Span,
    pub declaration: Option<Box<IrNode>>,
    pub specifiers: Vec<ExportSpecifier>,
    pub source: Option<String>,
    pub is_default: bool,
}

/// One name listed by an `export`.
#[derive(Debug)]
pub struct ExportSpecifier {
    pub span: Span,
    pub local: String,
    pub exported: String,
}

/// An `if` statement.
#[derive(Debug)]
pub struct IfStmt {
    pub span: Span,
    pub condition: IrExpr,
    pub consequent: Block,
    pub alternate: Option<Box<IrNode>>,
}

/// A `for`, `for..in` or `for..of` loop.
#[derive(Debug)]
pub struct ForStmt {
    pub span: Span,
    pub init: Option<Box<IrNode>>,
    pub condition: Option<IrExpr>,
    pub update: Option<IrExpr>,
    pub body: Block,
    pub annotations: ForAnnotations,
}

/// A `while` or `do..while` loop.
#[derive(Debug)]
pub struct WhileStmt {
    pub span: Span,
    pub condition: IrExpr,
    pub body: Block,
    pub is_do_while: bool,
}

/// A `switch` statement.
#[derive(Debug)]
pub struct SwitchStmt {
    pub span: Span,
    pub discriminant: IrExpr,
    pub cases: Vec<SwitchCase>,
}

/// A `case` or `default` clause.
#[derive(Debug)]
pub struct SwitchCase {
    pub span: Span,
    pub test: Option<IrExpr>,
    pub body: Vec<IrNode>,
}

/// A `try` statement.
#[derive(Debug)]
pub struct TryCatchStmt {
    pub span: Span,
    pub try_block: Block,
    pub catch_clause: Option<CatchClause>,
    pub finally_block: Option<Block>,
}

/// The `catch` part of a `try` statement.
#[derive(Debug)]
pub struct CatchClause {
    pub span: Span,
    pub param: Option<String>,
    pub body: Block,
}

/// A `return` statement.
#[derive(Debug)]
pub struct ReturnStmt {
    pub span: Span,
    pub value: Option<IrExpr>,
}

/// A `throw` statement.
#[derive(Debug)]
pub struct ThrowStmt {
    pub span: Span,
    pub argument: IrExpr,
}

/// A `break` statement.
#[derive(Debug)]
pub struct BreakStmt {
    pub span: Span,
    pub label: Option<String>,
}

/// A `continue` statement.
#[derive(Debug)]
pub struct ContinueStmt {
    pub span: Span,
    pub label: Option<String>,
}

/// A labeled statement; its body is normalized to a block.
#[derive(Debug)]
pub struct LabeledStmt {
    pub span: Span,
    pub label: String,
    pub body: Block,
}

/// An expression used as a statement.
#[derive(Debug)]
pub struct ExpressionStatement {
    pub span: Span,
    pub expression: IrExpr,
}

/// An assignment, plain or compound.
#[derive(Debug)]
pub struct Assignment {
    pub span: Span,
    pub target: Box<IrExpr>,
    pub operator: String,
    pub value: Box<IrExpr>,
}

/// A function call.
#[derive(Debug)]
pub struct Call {
    pub span: Span,
    pub callee: Box<IrExpr>,
    pub arguments: Vec<IrExpr>,
    pub optional: bool,
}

/// `a.b`, `a[b]`, `a?.b`.
#[derive(Debug)]
pub struct MemberAccess {
    pub span: Span,
    pub object: Box<IrExpr>,
    pub property: Box<IrExpr>,
    pub computed: bool,
    pub optional: bool,
}

/// A binary expression.
#[derive(Debug)]
pub struct BinaryExpr {
    pub span: Span,
    pub left: Box<IrExpr>,
    pub operator: String,
    pub right: Box<IrExpr>,
}

/// A name (also `this` and `super`).
#[derive(Debug)]
pub struct Identifier {
    pub span: Span,
    pub name: String,
}

/// A literal.
#[derive(Debug)]
pub struct Literal {
    pub span: Span,
    pub value: LiteralValue,
}

/// The value of a literal. A number is kept as the text of its source literal.
#[derive(Debug)]
pub enum LiteralValue {
    String(String),
    Number(String),
    Boolean(bool),
    Null,
    Undefined,
}

/// A block of statements.
#[derive(Debug)]
pub struct Block {
    pub span: Span,
    pub body: Vec<IrNode>,
}

/// A unary expression.
#[derive(Debug)]
pub struct UnaryExpr {
    pub span: Span,
    pub operator: String,
    pub operand: Box<IrExpr>,
    pub prefix: bool,
}

/// `++` or `--`, prefix or postfix.
#[derive(Debug)]
pub struct UpdateExpr {
    pub span: Span,
    pub operator: String,
    pub operand: Box<IrExpr>,
    pub prefix: bool,
}

/// `c ? a : b`
#[derive(Debug)]
pub struct ConditionalExpr {
    pub span: Span,
    pub condition: Box<IrExpr>,
    pub consequent: Box<IrExpr>,
    pub alternate: Box<IrExpr>,
}

/// An array literal; `None` marks a hole.
#[derive(Debug)]
pub struct ArrayExpr {
    pub span: Span,
    pub elements: Vec<Option<IrExpr>>,
}

/// An object literal.
#[derive(Debug)]
pub struct ObjectExpr {
    pub span: Span,
    pub properties: Vec<ObjectProperty>,
}

/// A member of an object literal.
#[derive(Debug)]
pub enum ObjectProperty {
    KeyValue(KeyValueProperty),
    Shorthand(ShorthandProperty),
    Method(MethodProperty),
    Accessor(AccessorProperty),
    Spread(SpreadProperty),
    Opaque(OpaqueExpr),
}

/// `key: value`
#[derive(Debug)]
pub struct KeyValueProperty {
    pub span: Span,
    pub key: IrExpr,
    pub value: IrExpr,
    pub computed: bool,
}

/// `{ x }`
#[derive(Debug)]
pub struct ShorthandProperty {
    pub span: Span,
    pub name: String,
}

/// A method of an object literal.
#[derive(Debug)]
pub struct MethodProperty {
    pub span: Span,
    pub key: IrExpr,
    pub params: Vec<Param>,
    pub body: Block,
    pub computed: bool,
    pub is_async: bool,
    pub is_generator: bool,
}

/// A getter or setter of an object literal.
#[derive(Debug)]
pub struct AccessorProperty {
    pub span: Span,
    pub key: IrExpr,
    pub accessor_kind: AccessorKind,
    pub params: Vec<Param>,
    pub body: Block,
}

/// `{ ...x }`
#[derive(Debug)]
pub struct SpreadProperty {
    pub span: Span,
    pub argument: IrExpr,
}

/// `new C(...)`
#[derive(Debug)]
pub struct NewExpr {
    pub span: Span,
    pub callee: Box<IrExpr>,
    pub arguments: Vec<IrExpr>,
}

/// `await e`
#[derive(Debug)]
pub struct AwaitExpr {
    pub span: Span,
    pub argument: Box<IrExpr>,
}

/// `yield e` or `yield* e`
#[derive(Debug)]
pub struct YieldExpr {
    pub span: Span,
    pub argument: Option<Box<IrExpr>>,
    pub delegate: bool,
}

/// `...e` in a call or array
#[derive(Debug)]
pub struct SpreadExpr {
    pub span: Span,
    pub argument: Box<IrExpr>,
}

/// A template literal with its text parts and substitutions.
#[derive(Debug)]
pub struct TemplateLiteral {
    pub span: Span,
    pub quasis: Vec<String>,
    pub expressions: Vec<IrExpr>,
}

/// tag`...`
#[derive(Debug)]
pub struct TaggedTemplate {
    pub span: Span,
    pub tag: Box<IrExpr>,
    pub quasi: Box<IrExpr>,
}

/// A destructuring pattern.
#[derive(Debug)]
pub enum Pattern {
    Object(ObjectPattern),
    Array(ArrayPattern),
    Assignment(AssignmentPattern),
    Rest(RestPattern),
    Opaque(OpaqueExpr),
}

/// `{ a, b: c, ...r }`
#[derive(Debug)]
pub struct ObjectPattern {
    pub span: Span,
    pub properties: Vec<ObjectPatternProperty>,
}

/// A member of an object pattern.
#[derive(Debug)]
pub enum ObjectPatternProperty {
    KeyValue(PatternKeyValue),
    Shorthand(PatternShorthand),
    Rest(PatternRest),
}

/// `key: pattern`
#[derive(Debug)]
pub struct PatternKeyValue {
    pub span: Span,
    pub key: String,
    pub value: Pattern,
}

/// `x` or `x = default`
#[derive(Debug)]
pub struct PatternShorthand {
    pub span: Span,
    pub name: String,
    pub default_value: Option<IrExpr>,
}

/// `...rest` in an object pattern
#[derive(Debug)]
pub struct PatternRest {
    pub span: Span,
    pub name: String,
}

/// `[a, , b]`; `None` marks a hole.
#[derive(Debug)]
pub struct ArrayPattern {
    pub span: Span,
    pub elements: Vec<Option<Pattern>>,
}

/// `pattern = default`
#[derive(Debug)]
pub struct AssignmentPattern {
    pub span: Span,
    pub left: Box<Pattern>,
    pub right: IrExpr,
}

/// `...pattern`
#[derive(Debug)]
pub struct RestPattern {
    pub span: Span,
    pub argument: Box<Pattern>,
}

/// An expression that is kept as its CST kind and text.
#[derive(Debug)]
pub struct OpaqueExpr {
    pub span: Span,
    pub cst_kind: String,
    pub text: String,
}

/// A statement that is kept as its CST kind and text.
#[derive(Debug)]
pub struct OpaqueNode {
    pub span: Span,
    pub cst_kind: String,
    pub text: String,
}

} // verus!
