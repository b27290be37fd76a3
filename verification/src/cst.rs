//! The concrete syntax tree handed to lowering.
use vstd::prelude::*;

use crate::source::Span;

verus! {

/// A node of the concrete syntax tree that the parser produces.
#[derive(Debug)]
pub struct CstNode {
    pub kind: String,
    pub named: bool,
    pub span: Span,
    /// The source text of a leaf; `None` for a node with children.
    pub text: Option<String>,
    pub children: Vec<CstNode>,
    pub field_name: Option<String>,
}

/// The index of the first of `s[j..]` that satisfies `p`.
pub open spec fn first_index_from(s: Seq<CstNode>, p: spec_fn(CstNode) -> bool, j: int) -> Option<int>
    decreases s.len() - j,
{
    if j < 0 || j >= s.len() {
        None
    } else if p(s[j]) {
        Some(j)
    } else {
        first_index_from(s, p, j + 1)
    }
}

/// The index of the first element of `s` that satisfies `p`.
pub open spec fn first_index(s: Seq<CstNode>, p: spec_fn(CstNode) -> bool) -> Option<int> {
    first_index_from(s, p, 0)
}

pub proof fn lemma_first_index_from(s: Seq<CstNode>, p: spec_fn(CstNode) -> bool, j: int)
    requires
        0 <= j,
    ensures
        first_index_from(s, p, j) matches Some(i) ==> {
            &&& j <= i < s.len()
            &&& p(s[i])
            &&& forall|k: int| j <= k < i ==> !p(#[trigger] s[k])
        },
        first_index_from(s, p, j) is None ==> forall|k: int| j <= k < s.len() ==> !p(#[trigger] s[k]),
    decreases s.len() - j,
{
    if j < s.len() {
        lemma_first_index_from(s, p, j + 1);
    }
}

/// The first element of `s` that satisfies `p`: exactly the one that a
/// front-to-back search finds.
pub proof fn lemma_first_index(s: Seq<CstNode>, p: spec_fn(CstNode) -> bool)
    ensures
        first_index(s, p) matches Some(i) ==> {
            &&& 0 <= i < s.len()
            &&& p(s[i])
            &&& forall|k: int| 0 <= k < i ==> !p(#[trigger] s[k])
        },
        first_index(s, p) is None ==> forall|k: int| 0 <= k < s.len() ==> !p(#[trigger] s[k]),
{
    lemma_first_index_from(s, p, 0);
}

/// `first_index` is determined by the characterization of the first match.
pub proof fn lemma_first_index_unique(s: Seq<CstNode>, p: spec_fn(CstNode) -> bool, i: int)
    requires
        0 <= i < s.len(),
        p(s[i]),
        forall|k: int| 0 <= k < i ==> !p(#[trigger] s[k]),
    ensures
        first_index(s, p) == Some(i),
{
    lemma_first_index(s, p);
}

/// Holds of a node whose field name is `f`.
pub open spec fn has_field(f: Seq<char>) -> spec_fn(CstNode) -> bool {
    |c: CstNode| c.field_name matches Some(n) && n@ == f
}

/// Holds of a named node.
pub open spec fn is_named() -> spec_fn(CstNode) -> bool {
    |c: CstNode| c.named
}

/// Holds of a node of kind `k`.
pub open spec fn kind_is(k: Seq<char>) -> spec_fn(CstNode) -> bool {
    |c: CstNode| c.kind@ == k
}

/// Holds of an unnamed node (a token) of kind `k`.
pub open spec fn token_is(k: Seq<char>) -> spec_fn(CstNode) -> bool {
    |c: CstNode| !c.named && c.kind@ == k
}

/// The first child of `node` that satisfies `p`.
pub open spec fn find_child(node: CstNode, p: spec_fn(CstNode) -> bool) -> Option<CstNode> {
    match first_index(node.children@, p) {
        Some(i) => Some(node.children@[i]),
        None => None,
    }
}

/// Whether some child of `node` satisfies `p`.
pub open spec fn any_child(node: CstNode, p: spec_fn(CstNode) -> bool) -> bool {
    first_index(node.children@, p) is Some
}

/// The child with field name `f`.
pub open spec fn field_child(node: CstNode, f: Seq<char>) -> Option<CstNode> {
    find_child(node, has_field(f))
}

/// The first named child.
pub open spec fn first_named(node: CstNode) -> Option<CstNode> {
    find_child(node, is_named())
}

/// A child that a search finds satisfies the predicate and is smaller than
/// its parent.
pub proof fn lemma_find_child(node: CstNode, p: spec_fn(CstNode) -> bool)
    ensures
        find_child(node, p) matches Some(c) ==> decreases_to!(node => c) && p(c),
        any_child(node, p) <==> exists|i: int| 0 <= i < node.children@.len() && p(#[trigger] node.children@[i]),
{
    lemma_first_index(node.children@, p);
    if let Some(i) = first_index(node.children@, p) {
        assert(decreases_to!(node => node.children@[i]));
    }
}

/// Relates a borrowed search result to the spec-level one.
pub open spec fn same_child(r: Option<&CstNode>, s: Option<CstNode>) -> bool {
    match r {
        Some(c) => s == Some(*c),
        None => s is None,
    }
}

impl CstNode {
    /// Whether this node is of kind `k`.
    pub fn kind_is(&self, k: &str) -> (r: bool)
        ensures
            r == (self.kind@ == k@),
    {
        crate::text::str_eq(self.kind.as_str(), k)
    }
}

} // verus!
