//! Helpers of lowering: searches among the children of a node, node text,
//! and small classifications of node kinds.
use vstd::prelude::*;
use vstd::string::StringExecFns;

use crate::cst::{
    any_child, field_child, find_child, first_index, first_named, has_field, is_named,
    lemma_first_index, lemma_first_index_unique, same_child, CstNode,
};
use crate::ir::{Accessibility, DeclKind, IrExpr, OpaqueExpr, ScopeLevel};
use crate::source::Span;
use crate::text::{spec_strip_quotes, str_eq, str_slice};

use super::spec::{
    accessibility_from, collect_text_upto, is_optional_chain, missing_expr, spec_collect_text,
    spec_decl_kind_and_scope, spec_extract_accessibility, spec_has_optional_chain,
    spec_is_ts_type_node,
};
use super::JsLowerer;

verus! {

broadcast use crate::ir_model::group_model_len;

/// The first child of `node` for which `f` holds, where `f` computes `p`.
pub(crate) fn find_child_by<'a, F: Fn(&CstNode) -> bool>(
    node: &'a CstNode,
    f: F,
    Ghost(p): Ghost<spec_fn(CstNode) -> bool>,
) -> (r: Option<&'a CstNode>)
    requires
        forall|c: &CstNode| #[trigger] f.requires((c,)),
        forall|c: &CstNode, b: bool| f.ensures((c,), b) ==> b == p(*c),
    ensures
        same_child(r, find_child(*node, p)),
{
    let mut i: usize = 0;
    while i < node.children.len()
        invariant
            0 <= i <= node.children@.len(),
            forall|k: int| 0 <= k < i ==> !p(#[trigger] node.children@[k]),
            forall|c: &CstNode| #[trigger] f.requires((c,)),
            forall|c: &CstNode, b: bool| f.ensures((c,), b) ==> b == p(*c),
        decreases node.children@.len() - i,
    {
        let c = &node.children[i];
        if f(c) {
            proof {
                lemma_first_index_unique(node.children@, p, i as int);
            }
            return Some(c);
        }
        i = i + 1;
    }
    proof {
        lemma_first_index(node.children@, p);
    }
    None
}

/// Whether `f` holds of some child of `node`, where `f` computes `p`.
pub(crate) fn any_child_by<F: Fn(&CstNode) -> bool>(
    node: &CstNode,
    f: F,
    Ghost(p): Ghost<spec_fn(CstNode) -> bool>,
) -> (r: bool)
    requires
        forall|c: &CstNode| #[trigger] f.requires((c,)),
        forall|c: &CstNode, b: bool| f.ensures((c,), b) ==> b == p(*c),
    ensures
        r == any_child(*node, p),
{
    let found = find_child_by(node, f, Ghost(p));
    found.is_some()
}

/// Whether `node` has a child of kind `k`.
pub(crate) fn has_child_kind(node: &CstNode, k: &str) -> (r: bool)
    ensures
        r == any_child(*node, crate::cst::kind_is(k@)),
{
    any_child_by(
        node,
        (|c: &CstNode| -> (b: bool)
            ensures
                b == (c.kind@ == k@),
            { c.kind_is(k) }),
        Ghost(crate::cst::kind_is(k@)),
    )
}

/// Whether `node` has a token (an unnamed child) of kind `k`.
pub(crate) fn has_token(node: &CstNode, k: &str) -> (r: bool)
    ensures
        r == any_child(*node, crate::cst::token_is(k@)),
{
    any_child_by(
        node,
        (|c: &CstNode| -> (b: bool)
            ensures
                b == (!c.named && c.kind@ == k@),
            { !c.named && c.kind_is(k) }),
        Ghost(crate::cst::token_is(k@)),
    )
}

/// The first child of `node` of kind `k`.
pub(crate) fn find_child_kind<'a>(node: &'a CstNode, k: &str) -> (r: Option<&'a CstNode>)
    ensures
        same_child(r, find_child(*node, crate::cst::kind_is(k@))),
{
    find_child_by(
        node,
        (|c: &CstNode| -> (b: bool)
            ensures
                b == (c.kind@ == k@),
            { c.kind_is(k) }),
        Ghost(crate::cst::kind_is(k@)),
    )
}

/// An opaque expression of kind `kind`, with no text, standing for a
/// missing part.
pub(crate) fn missing(span: Span, kind: &str) -> (r: IrExpr)
    ensures
        r@ == missing_expr(span, kind@),
{
    IrExpr::Opaque(OpaqueExpr { span, cst_kind: String::from_str(kind), text: String::new() })
}

impl JsLowerer {
    /// The first named child of `node`.
    pub(crate) fn first_named_child<'a>(&self, node: &'a CstNode) -> (r: Option<&'a CstNode>)
        ensures
            same_child(r, first_named(*node)),
    {
        find_child_by(
            node,
            (|c: &CstNode| -> (b: bool)
                ensures
                    b == c.named,
                { c.named }),
            Ghost(is_named()),
        )
    }

    /// The first child of `node` with field name `field`.
    pub(crate) fn child_by_field<'a>(&self, node: &'a CstNode, field: &str) -> (r: Option<&'a CstNode>)
        ensures
            same_child(r, field_child(*node, field@)),
    {
        find_child_by(
            node,
            (|c: &CstNode| -> (b: bool)
                ensures
                    b == (c.field_name matches Some(n) && n@ == field@),
                {
                    match &c.field_name {
                        Some(n) => str_eq(n.as_str(), field),
                        None => false,
                    }
                }),
            Ghost(has_field(field@)),
        )
    }

    /// The text of `node`: its leaf text; else the source between its byte
    /// offsets, where the source is non-empty and the offsets delimit
    /// characters of it; else its concatenated leaf text.
    pub(crate) fn node_text(&self, node: &CstNode) -> (r: String)
        ensures
            r@ == self@.spec_node_text(*node),
    {
        if let Some(text) = &node.text {
            return text.clone();
        }
        if !self.source.as_str().is_empty() {
            let start = node.span.start.offset as usize;
            let end = node.span.end.offset as usize;
            if let Some(t) = str_slice(self.source.as_str(), start, end) {
                return String::from_str(t);
            }
        }
        self.collect_text(node)
    }

    /// The concatenated text of the leaves under `node`.
    fn collect_text(&self, node: &CstNode) -> (r: String)
        ensures
            r@ == spec_collect_text(*node),
        decreases node,
    {
        if let Some(text) = &node.text {
            return text.clone();
        }
        let mut out = String::new();
        let mut i: usize = 0;
        while i < node.children.len()
            invariant
                0 <= i <= node.children@.len(),
                out@ == collect_text_upto(*node, i as int),
            decreases node.children@.len() - i,
        {
            let t = self.collect_text(&node.children[i]);
            out.append(t.as_str());
            i = i + 1;
        }
        out
    }

    /// Removes one pair of matching surrounding quotes (`"`, `'` or a backtick).
    pub fn strip_quotes(text: String) -> (r: String)
        ensures
            r@ == spec_strip_quotes(text@),
    {
        crate::text::strip_quotes(text)
    }

    /// The declaration kind and scope level of `let`, `const` and `var`.
    pub(crate) fn decl_kind_and_scope(kind_str: &str) -> (r: (Option<DeclKind>, Option<ScopeLevel>))
        ensures
            r == spec_decl_kind_and_scope(kind_str@),
    {
        if str_eq(kind_str, "let") {
            (Some(DeclKind::Let), Some(ScopeLevel::Block))
        } else if str_eq(kind_str, "const") {
            (Some(DeclKind::Const), Some(ScopeLevel::Block))
        } else if str_eq(kind_str, "var") {
            (Some(DeclKind::Var), Some(ScopeLevel::Function))
        } else {
            (None, None)
        }
    }

    /// Whether `kind` is a TypeScript-only node kind that lowering skips.
    pub fn is_ts_type_node(kind: &str) -> (r: bool)
        ensures
            r == spec_is_ts_type_node(kind@),
    {
        str_eq(kind, "type_annotation") || str_eq(kind, "type_parameters") || str_eq(
            kind,
            "type_arguments",
        ) || str_eq(kind, "interface_declaration") || str_eq(kind, "type_alias_declaration")
            || str_eq(kind, "enum_declaration") || str_eq(kind, "as_expression") || str_eq(
            kind,
            "satisfies_expression",
        ) || str_eq(kind, "non_null_expression") || str_eq(kind, "type_assertion")
    }

    /// Whether `node` has an `optional_chain` child, by kind or field name.
    pub fn has_optional_chain(node: &CstNode) -> (r: bool)
        ensures
            r == spec_has_optional_chain(*node),
    {
        any_child_by(
            node,
            (|c: &CstNode| -> (b: bool)
                ensures
                    b == (c.kind@ == "optional_chain"@ || (c.field_name matches Some(n) && n@
                        == "optional_chain"@)),
                {
                    c.kind_is("optional_chain") || match &c.field_name {
                        Some(n) => str_eq(n.as_str(), "optional_chain"),
                        None => false,
                    }
                }),
            Ghost(is_optional_chain()),
        )
    }

    /// The accessibility modifier of a class member: the first child that is
    /// a `public`/`private`/`protected` token or an `accessibility_modifier`
    /// node decides.
    pub(crate) fn extract_accessibility(node: &CstNode) -> (r: Option<Accessibility>)
        ensures
            r == spec_extract_accessibility(*node),
    {
        let mut i: usize = 0;
        while i < node.children.len()
            invariant
                0 <= i <= node.children@.len(),
                accessibility_from(*node, 0) == accessibility_from(*node, i as int),
            decreases node.children@.len() - i,
        {
            let child = &node.children[i];
            if !child.named {
                if child.kind_is("public") {
                    return Some(Accessibility::Public);
                } else if child.kind_is("private") {
                    return Some(Accessibility::Private);
                } else if child.kind_is("protected") {
                    return Some(Accessibility::Protected);
                }
            }
            if child.kind_is("accessibility_modifier") {
                let text: &str = match &child.text {
                    Some(t) => t.as_str(),
                    None => "",
                };
                proof {
                    reveal_strlit("");
                    assert(text@ == match child.text {
                        Some(t) => t@,
                        None => Seq::<char>::empty(),
                    });
                }
                return if str_eq(text, "public") {
                    Some(Accessibility::Public)
                } else if str_eq(text, "private") {
                    Some(Accessibility::Private)
                } else if str_eq(text, "protected") {
                    Some(Accessibility::Protected)
                } else {
                    None
                };
            }
            i = i + 1;
        }
        None
    }
}

} // verus!
