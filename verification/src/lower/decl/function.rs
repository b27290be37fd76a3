//! Lowering of function declarations and formal parameters.
use vstd::prelude::*;

use crate::cst::{has_field, lemma_find_child, CstNode};
use crate::ir::{Annotations, DeclKind, FunctionDecl, IrNode, Param, ScopeLevel};
use crate::ir_model::{lemma_model_param_seq_push, model_param_seq};
use crate::lower::helpers::has_child_kind;
use crate::lower::{JsLowerer, LowerError};
use crate::text::concat;

verus! {

broadcast use crate::ir_model::group_model_len;

impl JsLowerer {
    /// Lowers a function (or generator function) declaration.
    pub fn lower_function_declaration(&mut self, node: &CstNode) -> (r: Result<IrNode, LowerError>)
        ensures
            *final(self) == *old(self),
            r matches Ok(n) && n@ == old(self)@.spec_lower_function_declaration(*node),
        decreases node, 9int, 0int,
    {
        let name = match self.child_by_field(node, "name") {
            Some(n) => Some(self.node_text(n)),
            None => None,
        };
        let params = self.lower_formal_parameters(node)?;
        let body = self.field_block_or_empty(node, "body")?;
        let is_async = has_child_kind(node, "async");
        let is_generator = has_child_kind(node, "*");
        Ok(IrNode::FunctionDecl(FunctionDecl {
            span: node.span,
            name,
            params,
            body,
            annotations: Annotations {
                scope_level: Some(ScopeLevel::Module),
                declaration_kind: Some(DeclKind::Function),
                is_async,
                is_generator,
                is_export: false,
                is_default: false,
            },
            is_arrow: false,
        }))
    }

    /// Lowers the named children of the `parameters` child of a function.
    pub(crate) fn lower_formal_parameters(&mut self, func_node: &CstNode) -> (r: Result<Vec<Param>, LowerError>)
        ensures
            *final(self) == *old(self),
            r matches Ok(v) && model_param_seq(v@) == old(self)@.spec_lower_formal_parameters(*func_node),
        decreases func_node, 8int, 0int,
    {
        proof {
            lemma_find_child(*func_node, has_field("parameters"@));
        }
        let mut params: Vec<Param> = Vec::new();
        match self.child_by_field(func_node, "parameters") {
            Some(p) => {
                let mut i: usize = 0;
                while i < p.children.len()
                    invariant
                        *self == *old(self),
                        0 <= i <= p.children@.len(),
                        model_param_seq(params@) == self@.params_upto(*p, i as int),
                        decreases_to!(*func_node => *p),
                    decreases p.children@.len() - i,
                {
                    let c = &p.children[i];
                    if c.named {
                        let ghost before = params@;
                        let param = self.lower_param(c)?;
                        params.push(param);
                        proof {
                            lemma_model_param_seq_push(before, param);
                        }
                    }
                    i = i + 1;
                }
            },
            None => {},
        }
        Ok(params)
    }

    /// Lowers one formal parameter: a destructuring pattern, a parameter with
    /// a default value, a rest parameter (named `...` and its name), a
    /// TypeScript parameter (its pattern and default value, without its type
    /// annotation), or a plain name.
    pub(crate) fn lower_param(&mut self, node: &CstNode) -> (r: Result<Param, LowerError>)
        ensures
            *final(self) == *old(self),
            r matches Ok(p) && p@ == old(self)@.spec_lower_param(*node),
        decreases node, 9int, 0int,
    {
        if node.kind_is("object_pattern") || node.kind_is("array_pattern") {
            let pat = self.lower_pattern(node)?;
            Ok(Param { span: node.span, name: String::new(), pattern: Some(pat), default_value: None })
        } else if node.kind_is("assignment_pattern") {
            let (name, pattern) = self.field_name_and_pattern(node, "left")?;
            let default_value = self.opt_field_expression(node, "right")?;
            Ok(Param { span: node.span, name, pattern, default_value })
        } else if node.kind_is("rest_pattern") {
            let inner = match self.first_named_child(node) {
                Some(n) => self.node_text(n),
                None => String::new(),
            };
            Ok(Param { span: node.span, name: concat("...", inner.as_str()), pattern: None, default_value: None })
        } else if node.kind_is("required_parameter") || node.kind_is("optional_parameter") {
            let (name, pattern) = self.field_name_and_pattern(node, "pattern")?;
            let default_value = self.opt_field_expression(node, "value")?;
            Ok(Param { span: node.span, name, pattern, default_value })
        } else {
            Ok(Param { span: node.span, name: self.node_text(node), pattern: None, default_value: None })
        }
    }
}

} // verus!
