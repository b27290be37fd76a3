//! Lowering of identifiers, literals and template strings.
use vstd::prelude::*;
use vstd::string::StringExecFns;

use crate::cst::{is_named, lemma_find_child, CstNode};
use crate::ir::{Identifier, IrExpr, Literal, LiteralValue, TemplateLiteral};
use crate::ir_model::{
    lemma_model_ir_expr_seq_push, lemma_model_string_seq_push, model_ir_expr_seq, model_string_seq,
};
use crate::lower::helpers::has_child_kind;
use crate::lower::spec::{spec_lower_boolean_literal, spec_lower_null_literal, spec_lower_undefined};
use crate::lower::{JsLowerer, LowerError};

verus! {

broadcast use crate::ir_model::group_model_len;

impl JsLowerer {
    /// Lowers an identifier (also `this` and `super`) to its text.
    pub fn lower_identifier(&self, node: &CstNode) -> (r: IrExpr)
        ensures
            r@ == self@.spec_lower_identifier(*node),
    {
        IrExpr::Identifier(Identifier { span: node.span, name: self.node_text(node) })
    }

    /// Lowers a number literal, keeping the text of the literal.
    pub fn lower_number_literal(&self, node: &CstNode) -> (r: IrExpr)
        ensures
            r@ == self@.spec_lower_number_literal(*node),
    {
        let text = self.node_text(node);
        IrExpr::Literal(Literal { span: node.span, value: LiteralValue::Number(text) })
    }

    /// Lowers a string literal to its text without the quotes.
    pub fn lower_string_literal(&self, node: &CstNode) -> (r: IrExpr)
        ensures
            r@ == self@.spec_lower_string_literal(*node),
    {
        let text = self.node_text(node);
        let inner = Self::strip_quotes(text);
        IrExpr::Literal(Literal { span: node.span, value: LiteralValue::String(inner) })
    }

    /// Lowers `true` or `false`.
    pub fn lower_boolean_literal(&self, node: &CstNode) -> (r: IrExpr)
        ensures
            r@ == spec_lower_boolean_literal(*node),
    {
        let value = node.kind_is("true");
        IrExpr::Literal(Literal { span: node.span, value: LiteralValue::Boolean(value) })
    }

    /// Lowers `null`.
    pub fn lower_null_literal(&self, node: &CstNode) -> (r: IrExpr)
        ensures
            r@ == spec_lower_null_literal(*node),
    {
        IrExpr::Literal(Literal { span: node.span, value: LiteralValue::Null })
    }

    /// Lowers `undefined`.
    pub fn lower_undefined(&self, node: &CstNode) -> (r: IrExpr)
        ensures
            r@ == spec_lower_undefined(*node),
    {
        IrExpr::Literal(Literal { span: node.span, value: LiteralValue::Undefined })
    }

    /// Lowers a template string: as a string literal where it has no
    /// substitution, as a template literal otherwise.
    pub fn lower_template_string(&mut self, node: &CstNode) -> (r: Result<IrExpr, LowerError>)
        ensures
            *final(self) == *old(self),
            r matches Ok(e) && e@ == old(self)@.spec_lower_template_string(*node),
        decreases node, 10int, 0int,
    {
        let has_interpolation = has_child_kind(node, "template_substitution");
        if !has_interpolation {
            // a template string without substitutions is a plain string
            return Ok(self.lower_string_literal(node));
        }
        self.lower_template_as_literal(node)
    }

    /// Lowers a template string as a template literal, even without a
    /// substitution: its text parts (one more than its substitutions) and
    /// its substitutions, in order.
    pub fn lower_template_as_literal(&mut self, node: &CstNode) -> (r: Result<IrExpr, LowerError>)
        ensures
            *final(self) == *old(self),
            r matches Ok(e) && e@ == old(self)@.spec_lower_template_as_literal(*node),
        decreases node, 9int, 0int,
    {
        let mut quasis: Vec<String> = Vec::new();
        let mut expressions: Vec<IrExpr> = Vec::new();
        let mut current_quasi = String::new();
        let mut i: usize = 0;
        while i < node.children.len()
            invariant
                *self == *old(self),
                0 <= i <= node.children@.len(),
                model_string_seq(quasis@) == self@.template_parts_upto(*node, i as int).0,
                model_ir_expr_seq(expressions@) == self@.template_parts_upto(*node, i as int).1,
                current_quasi@ == self@.template_parts_upto(*node, i as int).2,
            decreases node.children@.len() - i,
        {
            let child = &node.children[i];
            if child.kind_is("string_fragment") || child.kind_is("escape_sequence") {
                let t = self.node_text(child);
                current_quasi.append(t.as_str());
            } else if child.kind_is("template_substitution") {
                let ghost q = quasis@;
                let ghost cur = current_quasi;
                quasis.push(current_quasi);
                current_quasi = String::new();
                proof {
                    lemma_model_string_seq_push(q, cur);
                    lemma_find_child(*child, is_named());
                }
                match self.first_named_child(child) {
                    Some(expr_node) => {
                        let ghost before = expressions@;
                        let expr = self.lower_expression(expr_node)?;
                        expressions.push(expr);
                        proof {
                            lemma_model_ir_expr_seq_push(before, expr);
                        }
                    },
                    None => {},
                }
            }
            i = i + 1;
        }
        let ghost q = quasis@;
        let ghost cur = current_quasi;
        // the trailing text part
        quasis.push(current_quasi);
        proof {
            lemma_model_string_seq_push(q, cur);
        }
        Ok(IrExpr::TemplateLiteral(TemplateLiteral { span: node.span, quasis, expressions }))
    }
}

} // verus!
