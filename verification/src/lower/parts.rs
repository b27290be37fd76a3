//! Lowering of the parts that many constructs share: an optional child
//! expression, a condition, a property key, a body.
use vstd::prelude::*;

use crate::cst::{has_field, is_named, lemma_find_child, CstNode};
use crate::ir::{Block, IrExpr, IrNode, Pattern};
use crate::ir_model::{
    lemma_model_ir_expr_seq_push, lemma_model_ir_node_seq_push, model_ir_expr_seq,
    model_ir_node_seq, model_opt_box_ir_node, model_opt_ir_expr, model_opt_pattern,
};

use super::helpers::missing;
use super::{JsLowerer, LowerError};

verus! {

broadcast use crate::ir_model::group_model_len;

impl JsLowerer {
    /// The expression inside a condition (its first named child, as in a
    /// parenthesized condition), or the condition itself.
    pub(crate) fn lower_condition(&mut self, node: &CstNode) -> (r: Result<IrExpr, LowerError>)
        ensures
            *final(self) == *old(self),
            r matches Ok(e) && e@ == old(self)@.lower_condition(*node),
        decreases node, 13int, 0int,
    {
        match self.first_named_child(node) {
            Some(inner) => {
                proof {
                    lemma_find_child(*node, is_named());
                }
                self.lower_expression(inner)
            },
            None => self.lower_expression(node),
        }
    }

    /// A property key: the expression of a computed key, or the key itself.
    pub(crate) fn lower_key(&mut self, node: &CstNode) -> (r: Result<IrExpr, LowerError>)
        ensures
            *final(self) == *old(self),
            r matches Ok(e) && e@ == old(self)@.lower_key(*node),
        decreases node, 14int, 0int,
    {
        if node.kind_is("computed_property_name") {
            self.lower_condition(node)
        } else {
            self.lower_expression(node)
        }
    }

    /// The expression of the child with field name `f`, if there is one.
    pub(crate) fn opt_field_expression(&mut self, node: &CstNode, f: &str) -> (r: Result<Option<IrExpr>, LowerError>)
        ensures
            *final(self) == *old(self),
            r matches Ok(e) && model_opt_ir_expr(e) == old(self)@.opt_field_expression(*node, f@),
        decreases node, 2int, 0int,
    {
        proof {
            lemma_find_child(*node, has_field(f@));
        }
        match self.child_by_field(node, f) {
            Some(c) => Ok(Some(self.lower_expression(c)?)),
            None => Ok(None),
        }
    }

    /// The expression of the first named child, if there is one.
    pub(crate) fn opt_first_named_expression(&mut self, node: &CstNode) -> (r: Result<Option<IrExpr>, LowerError>)
        ensures
            *final(self) == *old(self),
            r matches Ok(e) && model_opt_ir_expr(e) == old(self)@.opt_first_named_expression(*node),
        decreases node, 2int, 0int,
    {
        proof {
            lemma_find_child(*node, is_named());
        }
        match self.first_named_child(node) {
            Some(c) => Ok(Some(self.lower_expression(c)?)),
            None => Ok(None),
        }
    }

    /// The expression of the child with field name `f`, or an opaque
    /// expression of kind `missing_kind` where there is none.
    pub(crate) fn field_expr_or_missing(&mut self, node: &CstNode, f: &str, missing_kind: &str) -> (r: Result<Box<IrExpr>, LowerError>)
        ensures
            *final(self) == *old(self),
            r matches Ok(e) && e@ == *old(self)@.field_expr_or_missing(*node, f@, missing_kind@),
        decreases node, 3int, 0int,
    {
        match self.opt_field_expression(node, f)? {
            Some(e) => Ok(Box::new(e)),
            None => Ok(Box::new(missing(node.span, missing_kind))),
        }
    }

    /// The expression of the first named child, or an opaque expression of
    /// kind `missing_kind` where there is none.
    pub(crate) fn first_named_expr_or_missing(&mut self, node: &CstNode, missing_kind: &str) -> (r: Result<Box<IrExpr>, LowerError>)
        ensures
            *final(self) == *old(self),
            r matches Ok(e) && e@ == *old(self)@.first_named_expr_or_missing(*node, missing_kind@),
        decreases node, 3int, 0int,
    {
        match self.opt_first_named_expression(node)? {
            Some(e) => Ok(Box::new(e)),
            None => Ok(Box::new(missing(node.span, missing_kind))),
        }
    }

    /// The statement of the child with field name `f`, if there is one and it
    /// lowers to one.
    pub(crate) fn opt_field_node(&mut self, node: &CstNode, f: &str) -> (r: Result<Option<Box<IrNode>>, LowerError>)
        ensures
            *final(self) == *old(self),
            r matches Ok(n) && model_opt_box_ir_node(n) == old(self)@.opt_field_node(*node, f@),
        decreases node, 2int, 0int,
    {
        proof {
            lemma_find_child(*node, has_field(f@));
        }
        match self.child_by_field(node, f) {
            Some(c) => match self.lower_node(c)? {
                Some(x) => Ok(Some(Box::new(x))),
                None => Ok(None),
            },
            None => Ok(None),
        }
    }

    /// The block of the child with field name `f`, or an empty block at the
    /// span of `node`.
    pub(crate) fn field_block_or_empty(&mut self, node: &CstNode, f: &str) -> (r: Result<Block, LowerError>)
        ensures
            *final(self) == *old(self),
            r matches Ok(b) && b@ == old(self)@.field_block_or_empty(*node, f@),
        decreases node, 2int, 0int,
    {
        proof {
            lemma_find_child(*node, has_field(f@));
        }
        match self.child_by_field(node, f) {
            Some(b) => self.lower_block(b),
            None => Ok(Block { span: node.span, body: Vec::new() }),
        }
    }

    /// The body of a loop or labeled statement: its `body` child as a block
    /// (wrapping a single statement), or an empty block.
    pub(crate) fn loop_body(&mut self, node: &CstNode) -> (r: Result<Block, LowerError>)
        ensures
            *final(self) == *old(self),
            r matches Ok(b) && b@ == old(self)@.loop_body(*node),
        decreases node, 2int, 0int,
    {
        proof {
            lemma_find_child(*node, has_field("body"@));
        }
        match self.child_by_field(node, "body") {
            Some(b) => self.lower_block_or_wrap(b),
            None => Ok(Block { span: node.span, body: Vec::new() }),
        }
    }

    /// The name and pattern in the child with field name `f`: a pattern for
    /// an object or array pattern, else the child's text as the name.
    pub(crate) fn field_name_and_pattern(&mut self, node: &CstNode, f: &str) -> (r: Result<(String, Option<Pattern>), LowerError>)
        ensures
            *final(self) == *old(self),
            r matches Ok(x) && x.0@ == old(self)@.field_name_and_pattern(*node, f@).0
                && model_opt_pattern(x.1) == old(self)@.field_name_and_pattern(*node, f@).1,
        decreases node, 2int, 0int,
    {
        proof {
            lemma_find_child(*node, has_field(f@));
        }
        match self.child_by_field(node, f) {
            Some(n) => {
                if n.kind_is("object_pattern") || n.kind_is("array_pattern") {
                    let pat = self.lower_pattern(n)?;
                    Ok((String::new(), Some(pat)))
                } else {
                    Ok((self.node_text(n), None))
                }
            },
            None => Ok((String::new(), None)),
        }
    }

    /// The key in the child with field name `f`, or an opaque expression of
    /// kind `missing_kind` where there is none.
    pub(crate) fn field_key(&mut self, node: &CstNode, f: &str, missing_kind: &str) -> (r: Result<IrExpr, LowerError>)
        ensures
            *final(self) == *old(self),
            r matches Ok(e) && e@ == old(self)@.field_key(*node, f@, missing_kind@),
        decreases node, 2int, 0int,
    {
        proof {
            lemma_find_child(*node, has_field(f@));
        }
        match self.child_by_field(node, f) {
            Some(c) => self.lower_key(c),
            None => Ok(missing(node.span, missing_kind)),
        }
    }

    /// The arguments in the child with field name `f`: its named children
    /// other than comments, as expressions.
    pub(crate) fn field_arguments(&mut self, node: &CstNode, f: &str) -> (r: Result<Vec<IrExpr>, LowerError>)
        ensures
            *final(self) == *old(self),
            r matches Ok(v) && model_ir_expr_seq(v@) == old(self)@.field_arguments(*node, f@),
        decreases node, 2int, 0int,
    {
        proof {
            lemma_find_child(*node, has_field(f@));
        }
        match self.child_by_field(node, f) {
            Some(args) => {
                let mut out: Vec<IrExpr> = Vec::new();
                let mut i: usize = 0;
                while i < args.children.len()
                    invariant
                        *self == *old(self),
                        0 <= i <= args.children@.len(),
                        model_ir_expr_seq(out@) == self@.named_exprs_upto(*args, i as int),
                        decreases_to!(*node => *args),
                    decreases args.children@.len() - i,
                {
                    let c = &args.children[i];
                    if c.named && !c.kind_is("comment") {
                        let ghost before = out@;
                        let e = self.lower_expression(c)?;
                        out.push(e);
                        proof {
                            lemma_model_ir_expr_seq_push(before, e);
                        }
                    }
                    i = i + 1;
                }
                Ok(out)
            },
            None => Ok(Vec::new()),
        }
    }

    /// A statement block lowered as a block; any other statement wrapped in one.
    pub(crate) fn lower_block_or_wrap(&mut self, node: &CstNode) -> (r: Result<Block, LowerError>)
        ensures
            *final(self) == *old(self),
            r matches Ok(b) && b@ == old(self)@.spec_lower_block_or_wrap(*node),
        decreases node, 12int, 0int,
    {
        if node.kind_is("statement_block") {
            self.lower_block(node)
        } else {
            let inner = self.lower_node(node)?;
            let mut body: Vec<IrNode> = Vec::new();
            match inner {
                Some(n) => {
                    body.push(n);
                    proof {
                        lemma_model_ir_node_seq_push(Seq::empty(), n);
                        assert(Seq::<IrNode>::empty().push(n) =~= body@);
                    }
                },
                None => {},
            }
            Ok(Block { span: node.span, body })
        }
    }
}

} // verus!
