//! Lowering of function expressions, arrow functions, `await`, `yield` and
//! spread.
use vstd::prelude::*;

use crate::cst::{has_field, lemma_find_child, CstNode};
use crate::ir::{
    Annotations, AwaitExpr, Block, FunctionDecl, IrExpr, IrNode, Param, ReturnStmt, SpreadExpr,
    YieldExpr,
};
use crate::ir_model::{
    lemma_model_ir_node_seq_push, lemma_model_param_seq_push, model_ir_node_seq, model_param_seq,
    SpecBlock, SpecFunctionDecl, SpecIrExpr, SpecIrNode, SpecParam, SpecReturnStmt,
};
use crate::lower::helpers::{has_child_kind, has_token};
use crate::lower::{JsLowerer, LowerError};

verus! {

broadcast use crate::ir_model::group_model_len;

impl JsLowerer {
    /// Lowers a function expression (also a generator function).
    pub fn lower_function_expression(&mut self, node: &CstNode) -> (r: Result<IrExpr, LowerError>)
        ensures
            *final(self) == *old(self),
            r matches Ok(e) && e@ == old(self)@.spec_lower_function_expression(*node),
        decreases node, 9int, 0int,
    {
        let name = match self.child_by_field(node, "name") {
            Some(n) => Some(self.node_text(n)),
            None => None,
        };
        let params = self.lower_formal_parameters(node)?;
        let body = self.field_block_or_empty(node, "body")?;
        let is_async = has_child_kind(node, "async");
        let is_generator = has_child_kind(node, "*");
        Ok(IrExpr::FunctionExpr(FunctionDecl {
            span: node.span,
            name,
            params,
            body,
            annotations: Annotations {
                scope_level: None,
                declaration_kind: None,
                is_async,
                is_generator,
                is_export: false,
                is_default: false,
            },
            is_arrow: false,
        }))
    }

    /// Lowers an arrow function. Its parameters are a single identifier or a
    /// parameter list (leaving out type nodes); a concise body becomes a
    /// block that returns the expression.
    pub fn lower_arrow_function(&mut self, node: &CstNode) -> (r: Result<IrExpr, LowerError>)
        ensures
            *final(self) == *old(self),
            r matches Ok(e) && e@ == old(self)@.spec_lower_arrow_function(*node),
        decreases node, 9int, 0int,
    {
        proof {
            lemma_find_child(*node, has_field("parameters"@));
            lemma_find_child(*node, has_field("parameter"@));
            lemma_find_child(*node, has_field("body"@));
        }
        let is_async = has_child_kind(node, "async");
        let p = match self.child_by_field(node, "parameters") {
            Some(p) => Some(p),
            None => self.child_by_field(node, "parameter"),
        };
        let mut params: Vec<Param> = Vec::new();
        match p {
            Some(p) => {
                if p.kind_is("identifier") {
                    let param = Param { span: p.span, name: self.node_text(p), pattern: None, default_value: None };
                    assert(param@ == SpecParam { span: p.span, name: param.name@, pattern: None, default_value: None });
                    params.push(param);
                    proof {
                        lemma_model_param_seq_push(Seq::empty(), param);
                        assert(params@ =~= Seq::<Param>::empty().push(param));
                    }
                } else {
                    let mut i: usize = 0;
                    while i < p.children.len()
                        invariant
                            *self == *old(self),
                            0 <= i <= p.children@.len(),
                            model_param_seq(params@) == self@.arrow_params_upto(*p, i as int),
                            decreases_to!(*node => *p),
                        decreases p.children@.len() - i,
                    {
                        let c = &p.children[i];
                        if c.named && !Self::is_ts_type_node(c.kind.as_str()) {
                            let ghost before = params@;
                            let param = self.lower_param(c)?;
                            params.push(param);
                            proof {
                                lemma_model_param_seq_push(before, param);
                            }
                        }
                        i = i + 1;
                    }
                }
            },
            None => {},
        }
        let body = match self.child_by_field(node, "body") {
            Some(b) => {
                if b.kind_is("statement_block") {
                    self.lower_block(b)?
                } else {
                    // a concise body returns its expression
                    let expr = self.lower_expression(b)?;
                    let ghost e_model = expr@;
                    let ret = IrNode::Return(ReturnStmt { span: b.span, value: Some(expr) });
                    assert(ret@ == SpecIrNode::Return(SpecReturnStmt { span: b.span, value: Some(e_model) }));
                    let mut stmts: Vec<IrNode> = Vec::new();
                    stmts.push(ret);
                    proof {
                        lemma_model_ir_node_seq_push(Seq::empty(), ret);
                        assert(stmts@ =~= Seq::<IrNode>::empty().push(ret));
                    }
                    let blk = Block { span: b.span, body: stmts };
                    assert(blk@ == SpecBlock { span: b.span, body: seq![ret@] });
                    blk
                }
            },
            None => Block { span: node.span, body: Vec::new() },
        };
        let ghost p_model = model_param_seq(params@);
        let ghost b_model = body@;
        let result = IrExpr::FunctionExpr(FunctionDecl {
            span: node.span,
            name: None,
            params,
            body,
            annotations: Annotations {
                scope_level: None,
                declaration_kind: None,
                is_async,
                is_generator: false,
                is_export: false,
                is_default: false,
            },
            is_arrow: true,
        });
        assert(result@ == SpecIrExpr::FunctionExpr(SpecFunctionDecl {
            span: node.span,
            name: None,
            params: p_model,
            body: b_model,
            annotations: Annotations { is_async, ..Annotations::spec_empty() },
            is_arrow: true,
        }));
        Ok(result)
    }

    /// Lowers `await e`.
    pub fn lower_await_expression(&mut self, node: &CstNode) -> (r: Result<IrExpr, LowerError>)
        ensures
            *final(self) == *old(self),
            r matches Ok(e) && e@ == old(self)@.spec_lower_await_expression(*node),
        decreases node, 9int, 0int,
    {
        let argument = self.first_named_expr_or_missing(node, "missing_await_argument")?;
        Ok(IrExpr::AwaitExpr(AwaitExpr { span: node.span, argument }))
    }

    /// Lowers `yield e`, or `yield* e` with `delegate` set.
    pub fn lower_yield_expression(&mut self, node: &CstNode) -> (r: Result<IrExpr, LowerError>)
        ensures
            *final(self) == *old(self),
            r matches Ok(e) && e@ == old(self)@.spec_lower_yield_expression(*node),
        decreases node, 9int, 0int,
    {
        let delegate = has_token(node, "*");
        let argument = match self.opt_first_named_expression(node)? {
            Some(e) => Some(Box::new(e)),
            None => None,
        };
        Ok(IrExpr::YieldExpr(YieldExpr { span: node.span, argument, delegate }))
    }

    /// Lowers `...e`.
    pub fn lower_spread_expression(&mut self, node: &CstNode) -> (r: Result<IrExpr, LowerError>)
        ensures
            *final(self) == *old(self),
            r matches Ok(e) && e@ == old(self)@.spec_lower_spread_expression(*node),
        decreases node, 9int, 0int,
    {
        let argument = self.first_named_expr_or_missing(node, "missing_spread_argument")?;
        Ok(IrExpr::SpreadExpr(SpreadExpr { span: node.span, argument }))
    }
}

} // verus!
