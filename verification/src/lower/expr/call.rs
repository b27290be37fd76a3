//! Lowering of calls and `new` expressions.
use vstd::prelude::*;

use crate::cst::{has_field, lemma_find_child, CstNode};
use crate::ir::{Call, IrExpr, NewExpr, TaggedTemplate};
use crate::lower::{JsLowerer, LowerError};

verus! {

broadcast use crate::ir_model::group_model_len;

impl JsLowerer {
    /// Lowers a call. A call whose arguments are a template string is a
    /// tagged template, its template kept as a template literal.
    pub fn lower_call_expression(&mut self, node: &CstNode) -> (r: Result<IrExpr, LowerError>)
        ensures
            *final(self) == *old(self),
            r matches Ok(e) && e@ == old(self)@.spec_lower_call_expression(*node),
        decreases node, 9int, 0int,
    {
        proof {
            lemma_find_child(*node, has_field("arguments"@));
        }
        let callee = self.field_expr_or_missing(node, "function", "missing_callee")?;
        // tree-sitter represents tag`hello` as a call_expression whose
        // arguments are a template_string
        match self.child_by_field(node, "arguments") {
            Some(args) => {
                if args.kind_is("template_string") {
                    let quasi = self.lower_template_as_literal(args)?;
                    return Ok(IrExpr::TaggedTemplate(TaggedTemplate { span: node.span, tag: callee, quasi: Box::new(quasi) }));
                }
            },
            None => {},
        }
        let arguments = self.field_arguments(node, "arguments")?;
        Ok(IrExpr::Call(Call { span: node.span, callee, arguments, optional: Self::has_optional_chain(node) }))
    }

    /// Lowers `new C(...)`.
    pub fn lower_new_expression(&mut self, node: &CstNode) -> (r: Result<IrExpr, LowerError>)
        ensures
            *final(self) == *old(self),
            r matches Ok(e) && e@ == old(self)@.spec_lower_new_expression(*node),
        decreases node, 9int, 0int,
    {
        let callee = self.field_expr_or_missing(node, "constructor", "missing_constructor")?;
        let arguments = self.field_arguments(node, "arguments")?;
        Ok(IrExpr::NewExpr(NewExpr { span: node.span, callee, arguments }))
    }
}

} // verus!
