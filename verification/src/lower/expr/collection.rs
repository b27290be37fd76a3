//! Lowering of array and object literals.
use vstd::prelude::*;

use crate::cst::CstNode;
use crate::ir::{
    AccessorKind, AccessorProperty, ArrayExpr, IrExpr, KeyValueProperty, MethodProperty,
    ObjectExpr, ObjectProperty, OpaqueExpr, ShorthandProperty, SpreadProperty,
};
use crate::ir_model::{
    lemma_model_object_property_seq_push, lemma_model_opt_ir_expr_seq_push,
    model_object_property_seq, model_opt_ir_expr_seq,
};
use crate::lower::helpers::has_token;
use crate::lower::{JsLowerer, LowerError};

verus! {

broadcast use crate::ir_model::group_model_len;

impl JsLowerer {
    /// Lowers an array literal. A comma that follows `[` or another comma
    /// marks a hole (`None`); a trailing comma does not.
    pub fn lower_array_expression(&mut self, node: &CstNode) -> (r: Result<IrExpr, LowerError>)
        ensures
            *final(self) == *old(self),
            r matches Ok(e) && e@ == old(self)@.spec_lower_array_expression(*node),
        decreases node, 9int, 0int,
    {
        let mut elements: Vec<Option<IrExpr>> = Vec::new();
        let mut prev_was_comma = false;
        let mut first = true;
        let mut done = false;
        let mut i: usize = 0;
        while i < node.children.len()
            invariant
                *self == *old(self),
                0 <= i <= node.children@.len(),
                model_opt_ir_expr_seq(elements@) == self@.array_expression_upto(*node, i as int).elements,
                prev_was_comma == self@.array_expression_upto(*node, i as int).prev_was_comma,
                first == self@.array_expression_upto(*node, i as int).first,
                done == self@.array_expression_upto(*node, i as int).done,
            decreases node.children@.len() - i,
        {
            let child = &node.children[i];
            let ghost before = elements@;
            if done {
            } else if child.kind_is("[") {
                first = true;
            } else if child.kind_is("]") {
                // nothing after the closing bracket counts
                done = true;
            } else if child.kind_is(",") {
                if first || prev_was_comma {
                    // a hole: a leading comma or consecutive commas
                    elements.push(None);
                    proof {
                        lemma_model_opt_ir_expr_seq_push(before, None);
                    }
                }
                prev_was_comma = true;
                first = false;
            } else if child.named {
                let expr = self.lower_expression(child)?;
                elements.push(Some(expr));
                proof {
                    lemma_model_opt_ir_expr_seq_push(before, Some(expr));
                }
                prev_was_comma = false;
                first = false;
            }
            i = i + 1;
        }
        Ok(IrExpr::ArrayExpr(ArrayExpr { span: node.span, elements }))
    }

    /// Lowers an object literal; a member of an unknown kind is kept opaque.
    pub fn lower_object_expression(&mut self, node: &CstNode) -> (r: Result<IrExpr, LowerError>)
        ensures
            *final(self) == *old(self),
            r matches Ok(e) && e@ == old(self)@.spec_lower_object_expression(*node),
        decreases node, 9int, 0int,
    {
        let mut properties: Vec<ObjectProperty> = Vec::new();
        let mut i: usize = 0;
        while i < node.children.len()
            invariant
                *self == *old(self),
                0 <= i <= node.children@.len(),
                model_object_property_seq(properties@) == self@.object_properties_upto(*node, i as int),
            decreases node.children@.len() - i,
        {
            let child = &node.children[i];
            let ghost before = properties@;
            if child.named && !child.kind_is("comment") {
                let p = if child.kind_is("pair") {
                    self.lower_pair_property(child)?
                } else if child.kind_is("shorthand_property_identifier") || child.kind_is(
                    "shorthand_property_identifier_pattern",
                ) {
                    ObjectProperty::Shorthand(ShorthandProperty { span: child.span, name: self.node_text(child) })
                } else if child.kind_is("method_definition") {
                    self.lower_method_or_accessor_property(child)?
                } else if child.kind_is("spread_element") {
                    let argument = self.first_named_expr_or_missing(child, "missing_spread_argument")?;
                    ObjectProperty::Spread(SpreadProperty { span: child.span, argument: *argument })
                } else {
                    ObjectProperty::Opaque(OpaqueExpr { span: child.span, cst_kind: child.kind.clone(), text: self.node_text(child) })
                };
                properties.push(p);
                proof {
                    lemma_model_object_property_seq_push(before, p);
                }
            }
            i = i + 1;
        }
        Ok(IrExpr::ObjectExpr(ObjectExpr { span: node.span, properties }))
    }

    /// Lowers `key: value`.
    pub(crate) fn lower_pair_property(&mut self, node: &CstNode) -> (r: Result<ObjectProperty, LowerError>)
        ensures
            *final(self) == *old(self),
            r matches Ok(p) && p@ == old(self)@.spec_lower_pair_property(*node),
        decreases node, 9int, 0int,
    {
        let computed = match self.child_by_field(node, "key") {
            Some(k) => k.kind_is("computed_property_name"),
            None => false,
        };
        let key = self.field_key(node, "key", "missing_key")?;
        let value = self.field_expr_or_missing(node, "value", "missing_value")?;
        Ok(ObjectProperty::KeyValue(KeyValueProperty { span: node.span, key, value: *value, computed }))
    }

    /// Lowers a method of an object literal: a getter or setter where `get`
    /// or `set` is written, a method otherwise.
    pub(crate) fn lower_method_or_accessor_property(&mut self, node: &CstNode) -> (r: Result<ObjectProperty, LowerError>)
        ensures
            *final(self) == *old(self),
            r matches Ok(p) && p@ == old(self)@.spec_lower_method_or_accessor_property(*node),
        decreases node, 9int, 0int,
    {
        let has_get = has_token(node, "get");
        let has_set = has_token(node, "set");
        let computed = match self.child_by_field(node, "name") {
            Some(n) => n.kind_is("computed_property_name"),
            None => false,
        };
        let key = self.field_key(node, "name", "missing_name")?;
        let params = self.lower_formal_parameters(node)?;
        let body = self.field_block_or_empty(node, "body")?;
        if has_get || has_set {
            let accessor_kind = if has_get {
                AccessorKind::Getter
            } else {
                AccessorKind::Setter
            };
            return Ok(ObjectProperty::Accessor(AccessorProperty { span: node.span, key, accessor_kind, params, body }));
        }
        let is_async = has_token(node, "async");
        let is_generator = has_token(node, "*");
        Ok(ObjectProperty::Method(MethodProperty { span: node.span, key, params, body, computed, is_async, is_generator }))
    }
}

} // verus!
