//! Parsing of JavaScript / TypeScript source into a concrete syntax tree.
//!
//! The grammar work is done by tree-sitter; this module turns the tree it
//! returns into a `CstNode` tree of plain values.
use vstd::prelude::*;

use crate::cst::CstNode;
use crate::source::{Position, Span};
use crate::text::{concat, str_slice, utf8_slice};
use crate::tree_sitter_calls::{
    assign_grammar, javascript_grammar, language_error_text, new_parser, node_at, node_count,
    parse_text, reports, ts_parse, tree_nodes, tsx_grammar, typescript_grammar, TsNodeRecord,
};

verus! {

/// The source language, which selects the grammar.
#[derive(Debug, Clone, Copy, PartialEq, Eq, Structural)]
pub enum Language {
    JavaScript,
    TypeScript,
    Tsx,
}

/// Why parsing failed.
#[derive(Debug)]
pub enum ParseError {
    /// The grammar could not be assigned to the parser; holds the reason.
    LanguageSetup(String),
    /// The parser returned no tree.
    ParseFailed,
}

impl ParseError {
    /// The text of the message that describes the error.
    pub open spec fn spec_message(&self) -> Seq<char> {
        match self {
            ParseError::LanguageSetup(msg) => "language setup error: "@ + msg@,
            ParseError::ParseFailed => "parse failed"@,
        }
    }

    /// The message that describes the error.
    pub fn message(&self) -> (r: String)
        ensures
            r@ == self.spec_message(),
    {
        match self {
            ParseError::LanguageSetup(msg) => concat("language setup error: ", msg.as_str()),
            ParseError::ParseFailed => String::from_str("parse failed"),
        }
    }
}

/// `x` where it fits in a `u32`, else `u32::MAX`.
pub open spec fn saturate_u32(x: int) -> u32 {
    if x <= u32::MAX {
        x as u32
    } else {
        u32::MAX
    }
}

/// Converts a row, column or byte offset to a `u32`, saturating.
pub fn to_u32_saturating(x: usize) -> (r: u32)
    ensures
        r == saturate_u32(x as int),
{
    if x <= 0xffff_ffffusize {
        x as u32
    } else {
        u32::MAX
    }
}

/// The span of a node from its start and end points (row, column) and byte
/// offsets, each saturated to a `u32`.
pub fn span_from(start: (usize, usize), start_byte: usize, end: (usize, usize), end_byte: usize) -> (r:
    Span)
    ensures
        r.start.line == saturate_u32(start.0 as int),
        r.start.column == saturate_u32(start.1 as int),
        r.start.offset == saturate_u32(start_byte as int),
        r.end.line == saturate_u32(end.0 as int),
        r.end.column == saturate_u32(end.1 as int),
        r.end.offset == saturate_u32(end_byte as int),
{
    Span {
        start: Position {
            line: to_u32_saturating(start.0),
            column: to_u32_saturating(start.1),
            offset: to_u32_saturating(start_byte),
        },
        end: Position {
            line: to_u32_saturating(end.0),
            column: to_u32_saturating(end.1),
            offset: to_u32_saturating(end_byte),
        },
    }
}

/// The span of a node from its start and end points (row, column) and byte
/// offsets, each saturated to a `u32`.
pub open spec fn spec_span_from(start: (usize, usize), start_byte: usize, end: (usize, usize), end_byte: usize) -> Span {
    Span {
        start: Position {
            line: saturate_u32(start.0 as int),
            column: saturate_u32(start.1 as int),
            offset: saturate_u32(start_byte as int),
        },
        end: Position {
            line: saturate_u32(end.0 as int),
            column: saturate_u32(end.1 as int),
            offset: saturate_u32(end_byte as int),
        },
    }
}

/// The text of an optional string.
pub open spec fn opt_text(s: Option<&str>) -> Option<Seq<char>> {
    match s {
        Some(t) => Some(t@),
        None => None,
    }
}

/// The text of an optional owned string.
pub open spec fn opt_owned_text(s: Option<String>) -> Option<Seq<char>> {
    match s {
        Some(t) => Some(t@),
        None => None,
    }
}

/// The text of a leaf: the source between byte offsets `start` and `end`, or
/// `None` where that range is not a valid slice of `source`.
pub fn leaf_text(source: &str, start: usize, end: usize) -> (r: Option<String>)
    ensures
        r matches Some(t) ==> utf8_slice(source@, start as int, end as int) == Some(t@),
        r is None ==> utf8_slice(source@, start as int, end as int) is None,
{
    match str_slice(source, start, end) {
        Some(t) => Some(String::from_str(t)),
        None => None,
    }
}

/// Whether the text of a leaf is the slice of `source` that its span covers.
/// Where an offset did not fit in a `u32` the span cannot tell, and nothing
/// is required.
pub open spec fn leaf_text_ok(span: Span, text: Seq<char>, source: Seq<char>) -> bool {
    span.end.offset < u32::MAX ==> utf8_slice(source, span.start.offset as int, span.end.offset as int)
        == Some(text)
}

/// What every tree built from `source` satisfies: a node that has text has
/// no children, and its text is the source its span covers.
pub open spec fn cst_well_formed(node: CstNode, source: Seq<char>) -> bool
    decreases node,
{
    &&& (node.text matches Some(t) ==> node.children@.len() == 0 && leaf_text_ok(node.span, t@, source))
    &&& forall|i: int|
        0 <= i < node.children@.len() ==> cst_well_formed(#[trigger] node.children@[i], source)
}

/// A node is well formed when its own text is and all its children are.
proof fn lemma_well_formed_intro(n: CstNode, source: Seq<char>)
    requires
        n.text matches Some(t) ==> n.children@.len() == 0 && leaf_text_ok(n.span, t@, source),
        forall|i: int| 0 <= i < n.children@.len() ==> cst_well_formed(#[trigger] n.children@[i], source),
    ensures
        cst_well_formed(n, source),
{
    reveal_with_fuel(cst_well_formed, 2);
    assert forall|i: int| 0 <= i < n.children@.len() implies cst_well_formed(
        #[trigger] n.children@[i],
        source,
    ) by {}
}

/// The optional field name as an owned string.
fn owned_field_name(f: Option<&str>) -> (r: Option<String>)
    ensures
        r matches Some(s) ==> f matches Some(g) && s@ == g@,
        r is None ==> f is None,
{
    match f {
        Some(g) => Some(String::from_str(g)),
        None => None,
    }
}

/// The `CstNode` for a tree-sitter node, from what tree-sitter reports of it:
/// its kind, whether it is named, its start and end points and byte offsets,
/// its number of children, the field name under which it stands, and its
/// children, already converted. A node without children has the text of the
/// source between its offsets, where that is a valid slice.
pub fn cst_node_from(
    kind: &str,
    named: bool,
    start: (usize, usize),
    start_byte: usize,
    end: (usize, usize),
    end_byte: usize,
    child_count: usize,
    children: Vec<CstNode>,
    source: &str,
    field_name: Option<&str>,
) -> (r: CstNode)
    ensures
        r.kind@ == kind@,
        r.named == named,
        r.span == spec_span_from(start, start_byte, end, end_byte),
        opt_owned_text(r.text) == (if child_count == 0 {
            utf8_slice(source@, start_byte as int, end_byte as int)
        } else {
            None
        }),
        r.children@ == children@,
        opt_owned_text(r.field_name) == opt_text(field_name),
{
    let span = span_from(start, start_byte, end, end_byte);
    let text = if child_count == 0 {
        leaf_text(source, start_byte, end_byte)
    } else {
        None
    };
    CstNode {
        kind: String::from_str(kind),
        named,
        span,
        text,
        children,
        field_name: owned_field_name(field_name),
    }
}

/// The span that a record gives, each value saturated to a `u32`.
pub open spec fn record_span(n: TsNodeRecord) -> Span {
    Span {
        start: Position {
            line: saturate_u32(n.start_row as int),
            column: saturate_u32(n.start_column as int),
            offset: saturate_u32(n.start_byte as int),
        },
        end: Position {
            line: saturate_u32(n.end_row as int),
            column: saturate_u32(n.end_column as int),
            offset: saturate_u32(n.end_byte as int),
        },
    }
}

/// The preorder index of child `k` of the node at index `i`: the first child
/// follows its parent, and each next child follows the descendants of the
/// one before.
pub open spec fn child_index(nodes: Seq<TsNodeRecord>, i: int, k: nat) -> int
    decreases k,
{
    if k == 0 {
        i + 1
    } else {
        let j = child_index(nodes, i, (k - 1) as nat);
        j + nodes[j].descendant_count
    }
}

/// The number of children of the node at index `i`, from child `k` on, that
/// lie among `nodes` (all of them, in a tree that tree-sitter built).
pub open spec fn children_from(nodes: Seq<TsNodeRecord>, i: int, k: nat) -> nat
    decreases nodes[i].child_count - k,
{
    if k >= nodes[i].child_count || child_index(nodes, i, k) >= nodes.len() {
        0
    } else {
        1 + children_from(nodes, i, k + 1)
    }
}

/// Whether `c` is the `CstNode` of the node at index `i` of `nodes`, standing
/// under `field`, converted to at most `depth` levels below it: its kind,
/// named flag, span and field name are those of the record, a node without
/// children has the text of the source between its byte offsets, and its
/// children are the converted children of the record, in order.
pub open spec fn is_cst_of(
    c: CstNode,
    nodes: Seq<TsNodeRecord>,
    i: int,
    field: Option<Seq<char>>,
    source: Seq<char>,
    depth: nat,
) -> bool
    decreases depth,
{
    &&& 0 <= i < nodes.len()
    &&& c.kind@ == nodes[i].kind
    &&& c.named == nodes[i].named
    &&& c.span == record_span(nodes[i])
    &&& opt_owned_text(c.text) == (if nodes[i].child_count == 0 {
        utf8_slice(source, nodes[i].start_byte as int, nodes[i].end_byte as int)
    } else {
        None
    })
    &&& opt_owned_text(c.field_name) == field
    &&& c.children@.len() == (if depth == 0 {
        0
    } else {
        children_from(nodes, i, 0)
    })
    &&& depth > 0 ==> forall|k: int|
        0 <= k < c.children@.len() ==> is_cst_of(
            #[trigger] c.children@[k],
            nodes,
            child_index(nodes, i, k as nat),
            nodes[child_index(nodes, i, k as nat)].field_name,
            source,
            (depth - 1) as nat,
        )
}

/// A node converted from its record is so when its children are.
proof fn lemma_cst_of_intro(
    c: CstNode,
    nodes: Seq<TsNodeRecord>,
    i: int,
    field: Option<Seq<char>>,
    source: Seq<char>,
    depth: nat,
)
    requires
        0 <= i < nodes.len(),
        c.kind@ == nodes[i].kind,
        c.named == nodes[i].named,
        c.span == record_span(nodes[i]),
        opt_owned_text(c.text) == (if nodes[i].child_count == 0 {
            utf8_slice(source, nodes[i].start_byte as int, nodes[i].end_byte as int)
        } else {
            None
        }),
        opt_owned_text(c.field_name) == field,
        c.children@.len() == (if depth == 0 {
            0
        } else {
            children_from(nodes, i, 0)
        }),
        depth > 0 ==> forall|k: int|
            0 <= k < c.children@.len() ==> is_cst_of(
                #[trigger] c.children@[k],
                nodes,
                child_index(nodes, i, k as nat),
                nodes[child_index(nodes, i, k as nat)].field_name,
                source,
                (depth - 1) as nat,
            ),
    ensures
        is_cst_of(c, nodes, i, field, source, depth),
{
    reveal_with_fuel(is_cst_of, 2);
    if depth > 0 {
        assert forall|k: int| 0 <= k < c.children@.len() implies is_cst_of(
            #[trigger] c.children@[k],
            nodes,
            child_index(nodes, i, k as nat),
            nodes[child_index(nodes, i, k as nat)].field_name,
            source,
            (depth - 1) as nat,
        ) by {}
    }
}

/// Whether `cst` is what parsing `source` in `language` gives: the tree of
/// the nodes that tree-sitter builds, converted from its root, which stands
/// under no field.
pub open spec fn parsed_cst(cst: CstNode, source: Seq<char>, language: Language) -> bool {
    is_cst_of(cst, ts_parse(source, language), 0, None, source, ts_parse(source, language).len())
}

/// Converts the node of `tree` at preorder index `i`, standing under `field`,
/// to a `CstNode`, descending at most `depth` levels below it. Each node is
/// built by `cst_node_from` from what tree-sitter reports of it, with its
/// children in order. Called on the root with the number of nodes, which no
/// path in the tree exceeds, the whole tree is converted.
fn tree_to_cst(
    tree: &tree_sitter::Tree,
    count: usize,
    i: usize,
    source: &str,
    field: Option<&str>,
    depth: usize,
) -> (r: CstNode)
    requires
        count == tree_nodes(*tree).len(),
        i < count,
    ensures
        is_cst_of(r, tree_nodes(*tree), i as int, opt_text(field), source@, depth as nat),
        cst_well_formed(r, source@),
    decreases depth,
{
    let ghost nodes = tree_nodes(*tree);
    let report = node_at(tree, i);
    let mut children: Vec<CstNode> = Vec::new();
    if depth > 0 {
        let mut k: usize = 0;
        let mut j: usize = i + 1;
        while k < report.child_count && j < count
            invariant
                count == nodes.len(),
                nodes == tree_nodes(*tree),
                i < count,
                depth > 0,
                reports(report, nodes[i as int]),
                k <= report.child_count,
                j <= count,
                j < count ==> j == child_index(nodes, i as int, k as nat),
                j == count ==> child_index(nodes, i as int, k as nat) >= count,
                children@.len() == k,
                children_from(nodes, i as int, 0) == k + children_from(nodes, i as int, k as nat),
                forall|m: int|
                    0 <= m < k ==> is_cst_of(
                        #[trigger] children@[m],
                        nodes,
                        child_index(nodes, i as int, m as nat),
                        nodes[child_index(nodes, i as int, m as nat)].field_name,
                        source@,
                        (depth - 1) as nat,
                    ),
                forall|m: int| 0 <= m < children@.len() ==> cst_well_formed(#[trigger] children@[m], source@),
            decreases report.child_count - k,
        {
            let child = node_at(tree, j);
            let c = tree_to_cst(tree, count, j, source, child.field_name, depth - 1);
            assert(opt_text(child.field_name) == nodes[j as int].field_name);
            children.push(c);
            proof {
                assert(children_from(nodes, i as int, k as nat) == 1 + children_from(
                    nodes,
                    i as int,
                    (k + 1) as nat,
                ));
                assert(child_index(nodes, i as int, (k + 1) as nat) == j + nodes[j as int].descendant_count);
            }
            if child.descendant_count >= count - j {
                j = count;
            } else {
                j = j + child.descendant_count;
            }
            k = k + 1;
        }
        proof {
            assert(children_from(nodes, i as int, k as nat) == 0);
        }
    }
    let ghost kids = children@;
    let r = cst_node_from(
        report.kind,
        report.named,
        report.start,
        report.start_byte,
        report.end,
        report.end_byte,
        report.child_count,
        children,
        source,
        field,
    );
    proof {
        assert(r.children@ == kids);
        assert(r.span == record_span(nodes[i as int]));
        lemma_cst_of_intro(r, nodes, i as int, opt_text(field), source@, depth as nat);
        lemma_well_formed_intro(r, source@);
    }
    r
}

/// Parses `source` with the grammar of `language` and converts the tree that
/// tree-sitter builds to a `CstNode` tree. The shipped grammars are always
/// accepted and parsing a text always yields a tree, so this succeeds.
pub fn parse(source: &str, language: Language) -> (r: Result<CstNode, ParseError>)
    ensures
        r matches Ok(cst) && parsed_cst(cst, source@, language) && cst_well_formed(cst, source@)
            && cst.field_name is None,
{
    let grammar = match language {
        Language::JavaScript => javascript_grammar(),
        Language::TypeScript => typescript_grammar(),
        Language::Tsx => tsx_grammar(),
    };
    let mut parser = match assign_grammar(new_parser(), grammar) {
        Ok(p) => p,
        Err(e) => {
            return Err(ParseError::LanguageSetup(language_error_text(&e)));
        },
    };
    let tree = match parse_text(&mut parser, source) {
        Some(t) => t,
        None => {
            return Err(ParseError::ParseFailed);
        },
    };
    let count = node_count(&tree);
    let r = tree_to_cst(&tree, count, 0, source, None, count);
    Ok(r)
}

} // verus!
