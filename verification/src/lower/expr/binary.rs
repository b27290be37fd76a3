//! Lowering of binary, unary, update and conditional expressions.
use vstd::prelude::*;

use crate::cst::CstNode;
use crate::ir::{BinaryExpr, ConditionalExpr, IrExpr, UnaryExpr, UpdateExpr};
use crate::lower::{JsLowerer, LowerError};

verus! {

broadcast use crate::ir_model::group_model_len;

impl JsLowerer {
    /// Lowers a binary expression; the operator is the text of the
    /// `operator` child.
    pub fn lower_binary_expression(&mut self, node: &CstNode) -> (r: Result<IrExpr, LowerError>)
        ensures
            *final(self) == *old(self),
            r matches Ok(e) && e@ == old(self)@.spec_lower_binary_expression(*node),
        decreases node, 9int, 0int,
    {
        let op_str = match self.child_by_field(node, "operator") {
            Some(o) => self.node_text(o),
            None => String::new(),
        };
        let left = self.field_expr_or_missing(node, "left", "missing_left")?;
        let right = self.field_expr_or_missing(node, "right", "missing_right")?;
        Ok(IrExpr::BinaryExpr(BinaryExpr { span: node.span, left, operator: op_str, right }))
    }

    /// Lowers a unary expression, which is always prefix.
    pub fn lower_unary_expression(&mut self, node: &CstNode) -> (r: Result<IrExpr, LowerError>)
        ensures
            *final(self) == *old(self),
            r matches Ok(e) && e@ == old(self)@.spec_lower_unary_expression(*node),
        decreases node, 9int, 0int,
    {
        let op_str = match self.child_by_field(node, "operator") {
            Some(o) => self.node_text(o),
            None => String::new(),
        };
        let operand = self.field_expr_or_missing(node, "argument", "missing_operand")?;
        Ok(IrExpr::UnaryExpr(UnaryExpr { span: node.span, operator: op_str, operand, prefix: true }))
    }

    /// Lowers `++` or `--`. It is prefix where the operator starts before the
    /// operand; where either is missing the form cannot be told and it is
    /// taken as prefix.
    pub fn lower_update_expression(&mut self, node: &CstNode) -> (r: Result<IrExpr, LowerError>)
        ensures
            *final(self) == *old(self),
            r matches Ok(e) && e@ == old(self)@.spec_lower_update_expression(*node),
        decreases node, 9int, 0int,
    {
        let operand_node = self.child_by_field(node, "argument");
        let operator_node = self.child_by_field(node, "operator");
        let op_str = match operator_node {
            Some(o) => self.node_text(o),
            None => String::new(),
        };
        let operand = self.field_expr_or_missing(node, "argument", "missing_operand")?;
        let prefix = match (operator_node, operand_node) {
            (Some(op), Some(arg)) => op.span.start.offset < arg.span.start.offset,
            _ => true,
        };
        Ok(IrExpr::UpdateExpr(UpdateExpr { span: node.span, operator: op_str, operand, prefix }))
    }

    /// Lowers `c ? a : b`.
    pub fn lower_conditional_expression(&mut self, node: &CstNode) -> (r: Result<IrExpr, LowerError>)
        ensures
            *final(self) == *old(self),
            r matches Ok(e) && e@ == old(self)@.spec_lower_conditional_expression(*node),
        decreases node, 9int, 0int,
    {
        let condition = self.field_expr_or_missing(node, "condition", "missing_condition")?;
        let consequent = self.field_expr_or_missing(node, "consequence", "missing_consequent")?;
        let alternate = self.field_expr_or_missing(node, "alternative", "missing_alternate")?;
        Ok(IrExpr::ConditionalExpr(ConditionalExpr { span: node.span, condition, consequent, alternate }))
    }
}

} // verus!
