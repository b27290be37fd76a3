//! Lowering of member accesses.
use vstd::prelude::*;

use crate::cst::CstNode;
use crate::ir::{IrExpr, MemberAccess};
use crate::lower::{JsLowerer, LowerError};

verus! {

broadcast use crate::ir_model::group_model_len;

impl JsLowerer {
    /// Lowers `a.b`, or `a?.b` with `optional` set.
    pub fn lower_member_expression(&mut self, node: &CstNode) -> (r: Result<IrExpr, LowerError>)
        ensures
            *final(self) == *old(self),
            r matches Ok(e) && e@ == old(self)@.spec_lower_member_expression(*node),
        decreases node, 9int, 0int,
    {
        let object = self.field_expr_or_missing(node, "object", "missing_object")?;
        let property = self.field_expr_or_missing(node, "property", "missing_property")?;
        Ok(IrExpr::MemberAccess(MemberAccess {
            span: node.span,
            object,
            property,
            computed: false,
            optional: Self::has_optional_chain(node),
        }))
    }

    /// Lowers `a[b]`, or `a?.[b]` with `optional` set.
    pub fn lower_subscript_expression(&mut self, node: &CstNode) -> (r: Result<IrExpr, LowerError>)
        ensures
            *final(self) == *old(self),
            r matches Ok(e) && e@ == old(self)@.spec_lower_subscript_expression(*node),
        decreases node, 9int, 0int,
    {
        let object = self.field_expr_or_missing(node, "object", "missing_object")?;
        let property = self.field_expr_or_missing(node, "index", "missing_index")?;
        Ok(IrExpr::MemberAccess(MemberAccess {
            span: node.span,
            object,
            property,
            computed: true,
            optional: Self::has_optional_chain(node),
        }))
    }
}

} // verus!
