//! The calls into tree-sitter that parsing makes, each with the contract
//! that the rest of the crate relies on.
//!
//! A syntax tree is read as a collection of nodes in preorder: the node at
//! index 0 is the root, and the children of a node follow it, each with its
//! own descendants. `tree_nodes` names what a tree holds, node by node, as
//! plain values; `ts_parse` names the nodes that tree-sitter's parse of a text
//! in one of the shipped grammars yields.
use vstd::prelude::*;

use crate::parser::Language;

verus! {

/// The tree-sitter parser.
#[verifier::external_type_specification]
#[verifier::external_body]
pub struct ExTsParser(tree_sitter::Parser);

/// A tree-sitter syntax tree.
#[verifier::external_type_specification]
#[verifier::external_body]
pub struct ExTsTree(tree_sitter::Tree);

/// A tree-sitter grammar, as the grammar crates export it.
#[verifier::external_type_specification]
#[verifier::external_body]
pub struct ExTsGrammar(tree_sitter_language::LanguageFn);

/// The error of `tree_sitter::Parser::set_language`.
#[verifier::external_type_specification]
#[verifier::external_body]
pub struct ExTsLanguageError(tree_sitter::LanguageError);

/// What tree-sitter reports of one node: its kind, whether it is named, its
/// start and end points (row, column) and byte offsets, its number of
/// children, its number of descendants (itself included), and the name of
/// the field under which it stands in its parent.
pub struct TsNodeRecord {
    pub kind: Seq<char>,
    pub named: bool,
    pub start_row: nat,
    pub start_column: nat,
    pub start_byte: nat,
    pub end_row: nat,
    pub end_column: nat,
    pub end_byte: nat,
    pub child_count: nat,
    pub descendant_count: nat,
    pub field_name: Option<Seq<char>>,
}

/// The nodes of a tree, in preorder.
pub uninterp spec fn tree_nodes(tree: tree_sitter::Tree) -> Seq<TsNodeRecord>;

/// The nodes of the tree that tree-sitter builds for `source` with the
/// grammar of `language`, in preorder.
pub uninterp spec fn ts_parse(source: Seq<char>, language: Language) -> Seq<TsNodeRecord>;

/// A grammar that this crate ships: JavaScript, TypeScript or TSX. Only the
/// functions below make one.
pub struct ShippedGrammar {
    grammar: tree_sitter_language::LanguageFn,
    language: Language,
}

impl ShippedGrammar {
    /// The language of the grammar.
    pub closed spec fn language(&self) -> Language {
        self.language
    }
}

/// A parser to which a shipped grammar has been assigned. Only
/// `assign_grammar` makes one.
pub struct GrammarParser {
    parser: tree_sitter::Parser,
    language: Language,
}

impl GrammarParser {
    /// The language of the assigned grammar.
    pub closed spec fn language(&self) -> Language {
        self.language
    }
}

/// What tree-sitter reports of one node, as values.
pub struct NodeReport {
    pub kind: &'static str,
    pub named: bool,
    pub start: (usize, usize),
    pub start_byte: usize,
    pub end: (usize, usize),
    pub end_byte: usize,
    pub child_count: usize,
    pub descendant_count: usize,
    pub field_name: Option<&'static str>,
}

/// Whether a report gives the values of a record.
pub open spec fn reports(r: NodeReport, n: TsNodeRecord) -> bool {
    &&& r.kind@ == n.kind
    &&& r.named == n.named
    &&& r.start.0 == n.start_row && r.start.1 == n.start_column && r.start_byte == n.start_byte
    &&& r.end.0 == n.end_row && r.end.1 == n.end_column && r.end_byte == n.end_byte
    &&& r.child_count == n.child_count
    &&& r.descendant_count == n.descendant_count
    &&& match r.field_name {
        Some(f) => n.field_name == Some(f@),
        None => n.field_name is None,
    }
}

/// `tree_sitter::Parser::new`: a parser with no grammar assigned yet.
#[verifier::external_body]
pub(crate) fn new_parser() -> tree_sitter::Parser {
    tree_sitter::Parser::new()
}

/// The JavaScript grammar, `tree_sitter_javascript::LANGUAGE`.
#[verifier::external_body]
pub(crate) fn javascript_grammar() -> (r: ShippedGrammar)
    ensures
        r.language() == Language::JavaScript,
{
    ShippedGrammar { grammar: tree_sitter_javascript::LANGUAGE, language: Language::JavaScript }
}

/// The TypeScript grammar, `tree_sitter_typescript::LANGUAGE_TYPESCRIPT`.
#[verifier::external_body]
pub(crate) fn typescript_grammar() -> (r: ShippedGrammar)
    ensures
        r.language() == Language::TypeScript,
{
    ShippedGrammar { grammar: tree_sitter_typescript::LANGUAGE_TYPESCRIPT, language: Language::TypeScript }
}

/// The TSX grammar, `tree_sitter_typescript::LANGUAGE_TSX`.
#[verifier::external_body]
pub(crate) fn tsx_grammar() -> (r: ShippedGrammar)
    ensures
        r.language() == Language::Tsx,
{
    ShippedGrammar { grammar: tree_sitter_typescript::LANGUAGE_TSX, language: Language::Tsx }
}

/// `tree_sitter::Parser::set_language` with a shipped grammar. It fails only
/// where the grammar's ABI version lies outside the range that tree-sitter
/// accepts (13 to 15 in this version); the shipped grammars are generated
/// with version 14 (`LANGUAGE_VERSION` in their `parser.c`), so it succeeds.
#[verifier::external_body]
pub(crate) fn assign_grammar(parser: tree_sitter::Parser, grammar: ShippedGrammar) -> (r: Result<
    GrammarParser,
    tree_sitter::LanguageError,
>)
    ensures
        r is Ok,
        r->Ok_0.language() == grammar.language(),
{
    let mut parser = parser;
    match parser.set_language(&grammar.grammar.into()) {
        Ok(()) => Ok(GrammarParser { parser, language: grammar.language }),
        Err(e) => Err(e),
    }
}

/// The `Display` text of a `tree_sitter::LanguageError`. The error's fields
/// are private, so nothing is claimed of the text.
#[verifier::external_body]
pub(crate) fn language_error_text(e: &tree_sitter::LanguageError) -> String {
    e.to_string()
}

/// `tree_sitter::Parser::parse` on the whole of `source`, with no earlier
/// tree. It returns `None` only where no grammar is assigned, a timeout
/// expires or parsing is cancelled (or a wasm scanner fails); none of these
/// is set here, so it returns the tree of `source` in the assigned grammar.
#[verifier::external_body]
pub(crate) fn parse_text(parser: &mut GrammarParser, source: &str) -> (r: Option<tree_sitter::Tree>)
    ensures
        r is Some,
        tree_nodes(r->Some_0) == ts_parse(source@, old(parser).language()),
{
    parser.parser.parse(source, None)
}

/// The number of nodes in a tree: `tree_sitter::Node::descendant_count` of
/// its root, which counts the root itself, so it is at least one.
#[verifier::external_body]
pub(crate) fn node_count(tree: &tree_sitter::Tree) -> (r: usize)
    ensures
        r == tree_nodes(*tree).len(),
        r >= 1,
{
    tree.root_node().descendant_count()
}

/// The node of a tree at preorder index `index`, reached with
/// `tree_sitter::TreeCursor::goto_descendant`, and what tree-sitter reports
/// of it.
#[verifier::external_body]
pub(crate) fn node_at(tree: &tree_sitter::Tree, index: usize) -> (r: NodeReport)
    requires
        index < tree_nodes(*tree).len(),
    ensures
        reports(r, tree_nodes(*tree)[index as int]),
{
    let mut cursor = tree.walk();
    cursor.goto_descendant(index);
    let node = cursor.node();
    let (start, end) = (node.start_position(), node.end_position());
    NodeReport {
        kind: node.kind(),
        named: node.is_named(),
        start: (start.row, start.column),
        start_byte: node.start_byte(),
        end: (end.row, end.column),
        end_byte: node.end_byte(),
        child_count: node.child_count(),
        descendant_count: node.descendant_count(),
        field_name: cursor.field_name(),
    }
}

} // verus!
