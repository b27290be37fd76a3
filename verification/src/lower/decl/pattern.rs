//! Lowering of destructuring patterns.
use vstd::prelude::*;

use crate::cst::{has_field, is_named, lemma_find_child, CstNode};
use crate::ir::{
    ArrayPattern, AssignmentPattern, ObjectPattern, ObjectPatternProperty, OpaqueExpr, Pattern,
    PatternKeyValue, PatternRest, PatternShorthand, RestPattern,
};
use crate::ir_model::{
    lemma_model_object_pattern_property_seq_push, lemma_model_opt_pattern_seq_push,
    model_object_pattern_property_seq, model_opt_pattern_seq, SpecAssignmentPattern,
    SpecObjectPattern, SpecPattern, SpecRestPattern,
};
use crate::lower::helpers::missing;
use crate::lower::spec::empty_object_pattern;
use crate::source::Span;
use crate::lower::{JsLowerer, LowerError};

verus! {

broadcast use crate::ir_model::group_model_len;

/// An object pattern with no property.
fn empty_pattern(span: Span) -> (r: Pattern)
    ensures
        r@ == empty_object_pattern(span),
{
    let properties: Vec<ObjectPatternProperty> = Vec::new();
    let r = Pattern::Object(ObjectPattern { span, properties });
    assert(r@ == SpecPattern::Object(SpecObjectPattern { span, properties: model_object_pattern_property_seq(properties@) }));
    r
}

impl JsLowerer {
    /// Lowers a destructuring pattern. An identifier becomes an object
    /// pattern with one shorthand property; an unknown kind is kept opaque.
    pub(crate) fn lower_pattern(&mut self, node: &CstNode) -> (r: Result<Pattern, LowerError>)
        ensures
            *final(self) == *old(self),
            r matches Ok(p) && p@ == old(self)@.spec_lower_pattern(*node),
        decreases node, 6int, 0int,
    {
        if node.kind_is("object_pattern") {
            self.lower_object_pattern(node)
        } else if node.kind_is("array_pattern") {
            self.lower_array_pattern(node)
        } else if node.kind_is("assignment_pattern") {
            proof {
                lemma_find_child(*node, has_field("left"@));
            }
            let left_pat = match self.child_by_field(node, "left") {
                Some(l) => self.lower_pattern(l)?,
                None => empty_pattern(node.span),
            };
            let right_expr = match self.opt_field_expression(node, "right")? {
                Some(e) => e,
                None => missing(node.span, "missing_default"),
            };
            let ghost l_model = left_pat@;
            let ghost r_model = right_expr@;
            let result = Pattern::Assignment(AssignmentPattern { span: node.span, left: Box::new(left_pat), right: right_expr });
            assert(result@ == SpecPattern::Assignment(SpecAssignmentPattern { span: node.span, left: Box::new(l_model), right: r_model }));
            Ok(result)
        } else if node.kind_is("rest_pattern") {
            proof {
                lemma_find_child(*node, is_named());
            }
            let inner = match self.first_named_child(node) {
                Some(n) => self.lower_pattern(n)?,
                None => empty_pattern(node.span),
            };
            let ghost i_model = inner@;
            let result = Pattern::Rest(RestPattern { span: node.span, argument: Box::new(inner) });
            assert(result@ == SpecPattern::Rest(SpecRestPattern { span: node.span, argument: Box::new(i_model) }));
            Ok(result)
        } else if node.kind_is("identifier") {
            // a simple identifier is treated as a shorthand pattern
            let mut properties: Vec<ObjectPatternProperty> = Vec::new();
            let prop = ObjectPatternProperty::Shorthand(PatternShorthand {
                span: node.span,
                name: self.node_text(node),
                default_value: None,
            });
            properties.push(prop);
            proof {
                lemma_model_object_pattern_property_seq_push(Seq::empty(), prop);
                assert(properties@ =~= Seq::<ObjectPatternProperty>::empty().push(prop));
            }
            let ghost p_model = model_object_pattern_property_seq(properties@);
            let result = Pattern::Object(ObjectPattern { span: node.span, properties });
            assert(result@ == SpecPattern::Object(SpecObjectPattern { span: node.span, properties: p_model }));
            Ok(result)
        } else {
            Ok(Pattern::Opaque(OpaqueExpr { span: node.span, cst_kind: node.kind.clone(), text: self.node_text(node) }))
        }
    }

    /// Lowers an object pattern.
    fn lower_object_pattern(&mut self, node: &CstNode) -> (r: Result<Pattern, LowerError>)
        ensures
            *final(self) == *old(self),
            r matches Ok(p) && p@ == old(self)@.spec_lower_object_pattern(*node),
        decreases node, 5int, 0int,
    {
        let mut properties: Vec<ObjectPatternProperty> = Vec::new();
        let mut i: usize = 0;
        while i < node.children.len()
            invariant
                *self == *old(self),
                0 <= i <= node.children@.len(),
                model_object_pattern_property_seq(properties@) == self@.object_pattern_upto(*node, i as int),
            decreases node.children@.len() - i,
        {
            let child = &node.children[i];
            let ghost before = properties@;
            if !child.named {
            } else if child.kind_is("shorthand_property_identifier_pattern") {
                let p = ObjectPatternProperty::Shorthand(PatternShorthand {
                    span: child.span,
                    name: self.node_text(child),
                    default_value: None,
                });
                properties.push(p);
                proof {
                    lemma_model_object_pattern_property_seq_push(before, p);
                }
            } else if child.kind_is("pair_pattern") {
                proof {
                    lemma_find_child(*child, has_field("value"@));
                }
                let key_name = match self.child_by_field(child, "key") {
                    Some(k) => self.node_text(k),
                    None => String::new(),
                };
                let value_pat = match self.child_by_field(child, "value") {
                    Some(v) => self.lower_pattern(v)?,
                    None => empty_pattern(child.span),
                };
                let p = ObjectPatternProperty::KeyValue(PatternKeyValue { span: child.span, key: key_name, value: value_pat });
                properties.push(p);
                proof {
                    lemma_model_object_pattern_property_seq_push(before, p);
                }
            } else if child.kind_is("rest_pattern") {
                let inner = match self.first_named_child(child) {
                    Some(n) => self.node_text(n),
                    None => String::new(),
                };
                let p = ObjectPatternProperty::Rest(PatternRest { span: child.span, name: inner });
                properties.push(p);
                proof {
                    lemma_model_object_pattern_property_seq_push(before, p);
                }
            } else if child.kind_is("assignment_pattern") || child.kind_is("object_assignment_pattern") {
                // a shorthand with a default: { x = 10 }
                let name = match self.child_by_field(child, "left") {
                    Some(l) => self.node_text(l),
                    None => String::new(),
                };
                let default_value = self.opt_field_expression(child, "right")?;
                let p = ObjectPatternProperty::Shorthand(PatternShorthand { span: child.span, name, default_value });
                properties.push(p);
                proof {
                    lemma_model_object_pattern_property_seq_push(before, p);
                }
            }
            i = i + 1;
        }
        Ok(Pattern::Object(ObjectPattern { span: node.span, properties }))
    }

    /// Lowers an array pattern; a comma that follows `[` or another comma
    /// marks a hole.
    fn lower_array_pattern(&mut self, node: &CstNode) -> (r: Result<Pattern, LowerError>)
        ensures
            *final(self) == *old(self),
            r matches Ok(p) && p@ == old(self)@.spec_lower_array_pattern(*node),
        decreases node, 5int, 0int,
    {
        let mut elements: Vec<Option<Pattern>> = Vec::new();
        let mut prev_was_comma = false;
        let mut first = true;
        let mut done = false;
        let mut i: usize = 0;
        while i < node.children.len()
            invariant
                *self == *old(self),
                0 <= i <= node.children@.len(),
                model_opt_pattern_seq(elements@) == self@.array_pattern_upto(*node, i as int).elements,
                prev_was_comma == self@.array_pattern_upto(*node, i as int).prev_was_comma,
                first == self@.array_pattern_upto(*node, i as int).first,
                done == self@.array_pattern_upto(*node, i as int).done,
            decreases node.children@.len() - i,
        {
            let child = &node.children[i];
            let ghost before = elements@;
            if done {
            } else if child.kind_is("[") {
                first = true;
            } else if child.kind_is("]") {
                done = true;
            } else if child.kind_is(",") {
                if first || prev_was_comma {
                    elements.push(None);
                    proof {
                        lemma_model_opt_pattern_seq_push(before, None);
                    }
                }
                prev_was_comma = true;
                first = false;
            } else if child.named {
                let pat = self.lower_pattern(child)?;
                elements.push(Some(pat));
                proof {
                    lemma_model_opt_pattern_seq_push(before, Some(pat));
                }
                prev_was_comma = false;
                first = false;
            }
            i = i + 1;
        }
        Ok(Pattern::Array(ArrayPattern { span: node.span, elements }))
    }
}

} // verus!
