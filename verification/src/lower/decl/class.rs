//! Lowering of classes and their members.
use vstd::prelude::*;
use vstd::string::StringExecFns;

use crate::cst::{has_field, kind_is, lemma_find_child, same_child, CstNode};
use crate::ir::{Annotations, ClassDecl, DeclKind, IrNode, MethodDefinition, MethodKind, PropertyDefinition};
use crate::ir_model::{model_ir_node_seq, model_opt_ir_expr, model_opt_string, SpecClassDecl, SpecIrNode};
use crate::lower::helpers::{find_child_kind, has_token};
use crate::lower::spec::{decl_annotations, heritage_superclass, lemma_heritage_superclass};
use crate::lower::{JsLowerer, LowerError};
use crate::text::str_eq;

verus! {

broadcast use crate::ir_model::group_model_len;

impl JsLowerer {
    /// The superclass named in a heritage clause: the expression after
    /// `extends`, none where the clause only implements interfaces.
    pub(crate) fn heritage_superclass_of<'a>(&self, h: &'a CstNode) -> (r: Option<&'a CstNode>)
        ensures
            same_child(r, heritage_superclass(*h)),
    {
        match self.first_named_child(h) {
            Some(e) => {
                if e.kind_is("extends_clause") {
                    self.first_named_child(e)
                } else if e.kind_is("implements_clause") {
                    None
                } else {
                    Some(e)
                }
            },
            None => None,
        }
    }

    /// Lowers a class declaration: its name, its superclass (the
    /// `superclass` child, else the expression that its heritage clause
    /// extends) and its body.
    pub fn lower_class_declaration(&mut self, node: &CstNode) -> (r: Result<IrNode, LowerError>)
        ensures
            *final(self) == *old(self),
            r matches Ok(n) && n@ == old(self)@.spec_lower_class_declaration(*node),
        decreases node, 9int, 0int,
    {
        proof {
            lemma_find_child(*node, has_field("superclass"@));
            lemma_find_child(*node, has_field("body"@));
            lemma_find_child(*node, kind_is("class_heritage"@));
        }
        let name = match self.child_by_field(node, "name") {
            Some(n) => Some(self.node_text(n)),
            None => None,
        };
        let super_class = match self.child_by_field(node, "superclass") {
            Some(s) => Some(s),
            None => match find_child_kind(node, "class_heritage") {
                Some(h) => {
                    proof {
                        lemma_heritage_superclass(*h);
                    }
                    self.heritage_superclass_of(h)
                },
                None => None,
            },
        };
        let super_class_expr = match super_class {
            Some(s) => Some(self.lower_expression(s)?),
            None => None,
        };
        let body = match self.child_by_field(node, "body") {
            Some(b) => self.lower_children(b)?,
            None => Vec::new(),
        };
        let ghost name_model = model_opt_string(name);
        let ghost super_model = model_opt_ir_expr(super_class_expr);
        let ghost body_model = model_ir_node_seq(body@);
        let result = IrNode::ClassDecl(ClassDecl {
            span: node.span,
            name,
            super_class: super_class_expr,
            body,
            annotations: Annotations {
                scope_level: None,
                declaration_kind: Some(DeclKind::Class),
                is_async: false,
                is_generator: false,
                is_export: false,
                is_default: false,
            },
        });
        assert(result@ == SpecIrNode::ClassDecl(SpecClassDecl {
            span: node.span,
            name: name_model,
            super_class: super_model,
            body: body_model,
            annotations: decl_annotations(None, Some(DeclKind::Class)),
        }));
        Ok(result)
    }

    /// Lowers a method of a class body: a getter, a setter, the constructor or
    /// a plain method, with its modifiers.
    pub fn lower_method_definition(&mut self, node: &CstNode) -> (r: Result<IrNode, LowerError>)
        ensures
            *final(self) == *old(self),
            r matches Ok(n) && n@ == old(self)@.spec_lower_method_definition(*node),
        decreases node, 9int, 0int,
    {
        let is_static = has_token(node, "static");
        let has_get = has_token(node, "get");
        let has_set = has_token(node, "set");
        let is_async = has_token(node, "async");
        let is_generator = has_token(node, "*");
        let name_node = self.child_by_field(node, "name");
        let kind = if has_get {
            MethodKind::Getter
        } else if has_set {
            MethodKind::Setter
        } else {
            let is_constructor = match name_node {
                Some(n) => {
                    let t = self.node_text(n);
                    str_eq(t.as_str(), "constructor")
                },
                None => false,
            };
            if is_constructor {
                MethodKind::Constructor
            } else {
                MethodKind::Method
            }
        };
        let computed = match name_node {
            Some(n) => n.kind_is("computed_property_name"),
            None => false,
        };
        let key = self.field_key(node, "name", "missing_method_name")?;
        let params = self.lower_formal_parameters(node)?;
        let body = self.field_block_or_empty(node, "body")?;
        let accessibility = Self::extract_accessibility(node);
        Ok(IrNode::MethodDefinition(MethodDefinition {
            span: node.span,
            key,
            kind,
            params,
            body,
            is_static,
            computed,
            accessibility,
            is_async,
            is_generator,
        }))
    }

    /// Lowers a field of a class body.
    pub fn lower_property_definition(&mut self, node: &CstNode) -> (r: Result<IrNode, LowerError>)
        ensures
            *final(self) == *old(self),
            r matches Ok(n) && n@ == old(self)@.spec_lower_property_definition(*node),
        decreases node, 9int, 0int,
    {
        let is_static = has_token(node, "static");
        let computed = match self.child_by_field(node, "property") {
            Some(n) => n.kind_is("computed_property_name"),
            None => false,
        };
        let key = self.field_key(node, "property", "missing_property_name")?;
        let value = self.opt_field_expression(node, "value")?;
        let accessibility = Self::extract_accessibility(node);
        Ok(IrNode::PropertyDefinition(PropertyDefinition { span: node.span, key, value, is_static, computed, accessibility }))
    }
}

} // verus!
