//! Lowering of control flow statements.
use vstd::prelude::*;
use vstd::string::StringExecFns;

use crate::cst::{any_child, field_child, has_field, is_named, kind_is, lemma_find_child, CstNode};
use crate::ir::{
    Block, BreakStmt, CatchClause, ContinueStmt, ForAnnotations, ForKind, ForStmt, IfStmt, IrNode,
    LabeledStmt, OpaqueNode, ReturnStmt, SwitchCase, SwitchStmt, ThrowStmt, TryCatchStmt,
    WhileStmt,
};
use crate::ir_model::{
    model_opt_ir_node, SpecIfStmt, SpecIrNode, SpecSwitchStmt,
    lemma_model_ir_node_seq_push, lemma_model_switch_case_seq_push, model_ir_node_seq,
    model_switch_case_seq,
};

use super::helpers::{has_child_kind, missing};
use super::{JsLowerer, LowerError};

verus! {

broadcast use crate::ir_model::group_model_len;

impl JsLowerer {
    /// Lowers an `if` statement; one without a condition is kept opaque.
    pub fn lower_if_statement(&mut self, node: &CstNode) -> (r: Result<IrNode, LowerError>)
        ensures
            *final(self) == *old(self),
            r matches Ok(n) && n@ == old(self)@.spec_lower_if_statement(*node),
        decreases node, 9int, 0int,
    {
        proof {
            lemma_find_child(*node, has_field("condition"@));
            lemma_find_child(*node, has_field("consequence"@));
            lemma_find_child(*node, has_field("alternative"@));
        }
        let condition = match self.child_by_field(node, "condition") {
            Some(c) => self.lower_condition(c)?,
            None => {
                return Ok(IrNode::Opaque(OpaqueNode { span: node.span, cst_kind: node.kind.clone(), text: self.node_text(node) }));
            },
        };
        let consequent = match self.child_by_field(node, "consequence") {
            Some(c) => self.lower_block_or_wrap(c)?,
            None => Block { span: node.span, body: Vec::new() },
        };
        let alternate = match self.child_by_field(node, "alternative") {
            Some(alt) => {
                if alt.kind_is("else_clause") {
                    // an else clause wraps a statement block or another if statement
                    match self.first_named_child(alt) {
                        Some(inner) => {
                            proof {
                                lemma_find_child(*alt, is_named());
                            }
                            self.lower_node(inner)?
                        },
                        None => None,
                    }
                } else {
                    self.lower_node(alt)?
                }
            },
            None => None,
        };
        let ghost alt_model = model_opt_ir_node(alternate);
        let alternate = match alternate {
            Some(a) => Some(Box::new(a)),
            None => None,
        };
        let ghost c_model = condition@;
        let ghost b_model = consequent@;
        let result = IrNode::If(IfStmt { span: node.span, condition, consequent, alternate });
        assert(result@ == SpecIrNode::If(SpecIfStmt {
            span: node.span,
            condition: c_model,
            consequent: b_model,
            alternate: match alt_model {
                Some(a) => Some(Box::new(a)),
                None => None,
            },
        }));
        Ok(result)
    }

    /// Lowers a C-style `for` loop.
    pub fn lower_for_statement(&mut self, node: &CstNode) -> (r: Result<IrNode, LowerError>)
        ensures
            *final(self) == *old(self),
            r matches Ok(n) && n@ == old(self)@.spec_lower_for_statement(*node),
        decreases node, 9int, 0int,
    {
        let init = self.opt_field_node(node, "initializer")?;
        let condition = self.opt_field_expression(node, "condition")?;
        let update = self.opt_field_expression(node, "increment")?;
        let body = self.loop_body(node)?;
        Ok(IrNode::For(ForStmt {
            span: node.span,
            init,
            condition,
            update,
            body,
            annotations: ForAnnotations { kind: ForKind::Standard },
        }))
    }

    /// Lowers a `for..in` or `for..of` loop.
    pub fn lower_for_in_statement(&mut self, node: &CstNode) -> (r: Result<IrNode, LowerError>)
        ensures
            *final(self) == *old(self),
            r matches Ok(n) && n@ == old(self)@.spec_lower_for_in_statement(*node),
        decreases node, 9int, 0int,
    {
        let is_of = node.kind_is("for_of_statement") || has_child_kind(node, "of");
        let kind = if is_of {
            ForKind::Of
        } else {
            ForKind::In
        };
        let left = self.opt_field_node(node, "left")?;
        let right = self.opt_field_expression(node, "right")?;
        let body = self.loop_body(node)?;
        Ok(IrNode::For(ForStmt {
            span: node.span,
            init: left,
            condition: right,
            update: None,
            body,
            annotations: ForAnnotations { kind },
        }))
    }

    /// Lowers a `while` loop; one without a condition is kept opaque.
    pub fn lower_while_statement(&mut self, node: &CstNode) -> (r: Result<IrNode, LowerError>)
        ensures
            *final(self) == *old(self),
            r matches Ok(n) && n@ == old(self)@.spec_lower_while_statement(*node),
        decreases node, 9int, 0int,
    {
        proof {
            lemma_find_child(*node, has_field("condition"@));
        }
        let condition = match self.child_by_field(node, "condition") {
            Some(c) => self.lower_condition(c)?,
            None => {
                return Ok(IrNode::Opaque(OpaqueNode { span: node.span, cst_kind: node.kind.clone(), text: self.node_text(node) }));
            },
        };
        let body = self.loop_body(node)?;
        Ok(IrNode::While(WhileStmt { span: node.span, condition, body, is_do_while: false }))
    }

    /// Lowers a `do..while` loop; one without a condition is kept opaque.
    pub fn lower_do_while_statement(&mut self, node: &CstNode) -> (r: Result<IrNode, LowerError>)
        ensures
            *final(self) == *old(self),
            r matches Ok(n) && n@ == old(self)@.spec_lower_do_while_statement(*node),
        decreases node, 9int, 0int,
    {
        proof {
            lemma_find_child(*node, has_field("condition"@));
        }
        let condition = match self.child_by_field(node, "condition") {
            Some(c) => self.lower_condition(c)?,
            None => {
                return Ok(IrNode::Opaque(OpaqueNode { span: node.span, cst_kind: node.kind.clone(), text: self.node_text(node) }));
            },
        };
        let body = self.loop_body(node)?;
        Ok(IrNode::While(WhileStmt { span: node.span, condition, body, is_do_while: true }))
    }

    /// Lowers a `switch` statement; one without a discriminant is kept opaque.
    pub fn lower_switch_statement(&mut self, node: &CstNode) -> (r: Result<IrNode, LowerError>)
        ensures
            *final(self) == *old(self),
            r matches Ok(n) && n@ == old(self)@.spec_lower_switch_statement(*node),
        decreases node, 9int, 0int,
    {
        proof {
            lemma_find_child(*node, has_field("value"@));
            lemma_find_child(*node, has_field("body"@));
        }
        let discriminant = match self.child_by_field(node, "value") {
            Some(d) => self.lower_condition(d)?,
            None => {
                return Ok(IrNode::Opaque(OpaqueNode { span: node.span, cst_kind: node.kind.clone(), text: self.node_text(node) }));
            },
        };
        let mut cases: Vec<SwitchCase> = Vec::new();
        match self.child_by_field(node, "body") {
            Some(b) => {
                let mut i: usize = 0;
                while i < b.children.len()
                    invariant
                        *self == *old(self),
                        0 <= i <= b.children@.len(),
                        model_switch_case_seq(cases@) == self@.switch_cases_upto(*b, i as int),
                        decreases_to!(*node => *b),
                    decreases b.children@.len() - i,
                {
                    let c = &b.children[i];
                    if c.kind_is("switch_case") || c.kind_is("switch_default") {
                        let ghost before = cases@;
                        let sc = self.lower_switch_case(c)?;
                        cases.push(sc);
                        proof {
                            lemma_model_switch_case_seq_push(before, sc);
                        }
                    }
                    i = i + 1;
                }
            },
            None => {},
        }
        let ghost cases_model = model_switch_case_seq(cases@);
        let ghost d_model = discriminant@;
        let result = IrNode::Switch(SwitchStmt { span: node.span, discriminant, cases });
        assert(result@ == SpecIrNode::Switch(SpecSwitchStmt { span: node.span, discriminant: d_model, cases: cases_model }));
        assert(cases_model == match field_child(*node, "body"@) {
                        Some(b) => self@.switch_cases_upto(b, b.children@.len() as int),
                        None => Seq::empty(),
                    });
        Ok(result)
    }

    /// Lowers a `case` or `default` clause.
    fn lower_switch_case(&mut self, node: &CstNode) -> (r: Result<SwitchCase, LowerError>)
        ensures
            *final(self) == *old(self),
            r matches Ok(c) && c@ == old(self)@.spec_lower_switch_case(*node),
        decreases node, 9int, 0int,
    {
        let test = if node.kind_is("switch_default") {
            None
        } else {
            self.opt_field_expression(node, "value")?
        };
        let mut body: Vec<IrNode> = Vec::new();
        let mut i: usize = 0;
        while i < node.children.len()
            invariant
                *self == *old(self),
                0 <= i <= node.children@.len(),
                model_ir_node_seq(body@) == self@.case_body_upto(*node, i as int),
            decreases node.children@.len() - i,
        {
            let c = &node.children[i];
            let is_value = match &c.field_name {
                Some(f) => crate::text::str_eq(f.as_str(), "value"),
                None => false,
            };
            if c.named && !is_value {
                let ghost before = body@;
                match self.lower_node(c)? {
                    Some(n) => {
                        body.push(n);
                        proof {
                            lemma_model_ir_node_seq_push(before, n);
                        }
                    },
                    None => {},
                }
            }
            i = i + 1;
        }
        Ok(SwitchCase { span: node.span, test, body })
    }

    /// Lowers a `try` statement.
    pub fn lower_try_statement(&mut self, node: &CstNode) -> (r: Result<IrNode, LowerError>)
        ensures
            *final(self) == *old(self),
            r matches Ok(n) && n@ == old(self)@.spec_lower_try_statement(*node),
        decreases node, 9int, 0int,
    {
        proof {
            lemma_find_child(*node, has_field("handler"@));
            lemma_find_child(*node, has_field("finalizer"@));
        }
        let try_block = self.field_block_or_empty(node, "body")?;
        let catch_clause = match self.child_by_field(node, "handler") {
            Some(h) => Some(self.lower_catch_clause(h)?),
            None => None,
        };
        let finally_block = match self.child_by_field(node, "finalizer") {
            Some(f) => Some(self.lower_block(f)?),
            None => None,
        };
        Ok(IrNode::TryCatch(TryCatchStmt { span: node.span, try_block, catch_clause, finally_block }))
    }

    /// Lowers a `catch` clause.
    fn lower_catch_clause(&mut self, node: &CstNode) -> (r: Result<CatchClause, LowerError>)
        ensures
            *final(self) == *old(self),
            r matches Ok(c) && c@ == old(self)@.spec_lower_catch_clause(*node),
        decreases node, 9int, 0int,
    {
        let param = match self.child_by_field(node, "parameter") {
            Some(p) => match self.first_named_child(p) {
                Some(q) => Some(self.node_text(q)),
                None => Some(self.node_text(p)),
            },
            None => None,
        };
        let body = self.field_block_or_empty(node, "body")?;
        Ok(CatchClause { span: node.span, param, body })
    }

    /// Lowers a `return` statement.
    pub fn lower_return_statement(&mut self, node: &CstNode) -> (r: Result<IrNode, LowerError>)
        ensures
            *final(self) == *old(self),
            r matches Ok(n) && n@ == old(self)@.spec_lower_return_statement(*node),
        decreases node, 9int, 0int,
    {
        let value = self.opt_first_named_expression(node)?;
        Ok(IrNode::Return(ReturnStmt { span: node.span, value }))
    }

    /// Lowers a `throw` statement; a missing argument is kept as an opaque
    /// expression.
    pub fn lower_throw_statement(&mut self, node: &CstNode) -> (r: Result<IrNode, LowerError>)
        ensures
            *final(self) == *old(self),
            r matches Ok(n) && n@ == old(self)@.spec_lower_throw_statement(*node),
        decreases node, 9int, 0int,
    {
        let argument = match self.opt_first_named_expression(node)? {
            Some(e) => e,
            None => missing(node.span, "missing_throw_argument"),
        };
        Ok(IrNode::Throw(ThrowStmt { span: node.span, argument }))
    }

    /// Lowers a `break` statement.
    pub fn lower_break_statement(&mut self, node: &CstNode) -> (r: Result<IrNode, LowerError>)
        ensures
            *final(self) == *old(self),
            r matches Ok(n) && n@ == old(self)@.spec_lower_break_statement(*node),
    {
        let label = match self.child_by_field(node, "label") {
            Some(l) => Some(self.node_text(l)),
            None => None,
        };
        Ok(IrNode::Break(BreakStmt { span: node.span, label }))
    }

    /// Lowers a `continue` statement.
    pub fn lower_continue_statement(&mut self, node: &CstNode) -> (r: Result<IrNode, LowerError>)
        ensures
            *final(self) == *old(self),
            r matches Ok(n) && n@ == old(self)@.spec_lower_continue_statement(*node),
    {
        let label = match self.child_by_field(node, "label") {
            Some(l) => Some(self.node_text(l)),
            None => None,
        };
        Ok(IrNode::Continue(ContinueStmt { span: node.span, label }))
    }

    /// Lowers a labeled statement: its label's text and its body as a block.
    pub fn lower_labeled_statement(&mut self, node: &CstNode) -> (r: Result<IrNode, LowerError>)
        ensures
            *final(self) == *old(self),
            r matches Ok(n) && n@ == old(self)@.spec_lower_labeled_statement(*node),
        decreases node, 9int, 0int,
    {
        let label = match self.child_by_field(node, "label") {
            Some(l) => self.node_text(l),
            None => String::new(),
        };
        let body = self.loop_body(node)?;
        Ok(IrNode::Labeled(LabeledStmt { span: node.span, label, body }))
    }
}

} // verus!
