//! Lowering of assignments.
use vstd::prelude::*;
use vstd::string::StringExecFns;

use crate::cst::{find_child, CstNode};
use crate::ir::{Assignment, IrExpr};
use crate::lower::helpers::find_child_by;
use crate::lower::spec::{is_assignment_operator, is_assignment_token};
use crate::lower::{JsLowerer, LowerError};

verus! {

broadcast use crate::ir_model::group_model_len;

impl JsLowerer {
    /// Lowers an assignment, plain or compound. The operator is the first
    /// assignment operator token, `=` where there is none.
    pub fn lower_assignment_expression(&mut self, node: &CstNode) -> (r: Result<IrExpr, LowerError>)
        ensures
            *final(self) == *old(self),
            r matches Ok(e) && e@ == old(self)@.spec_lower_assignment_expression(*node),
        decreases node, 9int, 0int,
    {
        let op_node = find_child_by(
            node,
            (|c: &CstNode| -> (b: bool)
                ensures
                    b == (!c.named && is_assignment_operator(c.kind@)),
                {
                    !c.named && (c.kind_is("=") || c.kind_is("+=") || c.kind_is("-=") || c.kind_is("*=")
                        || c.kind_is("/=") || c.kind_is("%=") || c.kind_is("**=") || c.kind_is("<<=")
                        || c.kind_is(">>=") || c.kind_is(">>>=") || c.kind_is("&=") || c.kind_is("|=")
                        || c.kind_is("^=") || c.kind_is("&&=") || c.kind_is("||=") || c.kind_is("??="))
                }),
            Ghost(is_assignment_token()),
        );
        let operator = match op_node {
            Some(c) => c.kind.clone(),
            None => String::from_str("="),
        };
        let target = self.field_expr_or_missing(node, "left", "missing_left")?;
        let value = self.field_expr_or_missing(node, "right", "missing_right")?;
        Ok(IrExpr::Assignment(Assignment { span: node.span, target, operator, value }))
    }
}

} // verus!
