//! Lowering of `let`, `const` and `var` declarations.
use vstd::prelude::*;

use crate::cst::{find_child, CstNode};
use crate::ir::{Annotations, IrExpr, IrNode, VariableDecl};
use crate::ir_model::{lemma_model_ir_node_seq_push, model_ir_node_seq, model_opt_ir_expr, model_opt_pattern};
use crate::lower::helpers::find_child_by;
use crate::lower::spec::{decl_annotations, is_decl_keyword, name_function_value, spec_decl_kind_and_scope};
use crate::lower::{JsLowerer, LowerError};

verus! {

broadcast use crate::ir_model::group_model_len;

impl JsLowerer {
    /// Lowers a `let`, `const` or `var` declaration: one variable declaration
    /// per declarator, annotated with the declaration kind and scope level of
    /// the keyword; one without a name where there is no declarator. An
    /// anonymous function bound to a plain name is given that name.
    pub fn lower_variable_declaration(&mut self, node: &CstNode) -> (r: Result<Vec<IrNode>, LowerError>)
        ensures
            *final(self) == *old(self),
            r matches Ok(v) && model_ir_node_seq(v@) == old(self)@.spec_lower_variable_declaration(*node),
        decreases node, 9int, 0int,
    {
        let keyword = find_child_by(
            node,
            (|c: &CstNode| -> (b: bool)
                ensures
                    b == (!c.named && (c.kind@ == "let"@ || c.kind@ == "const"@ || c.kind@ == "var"@)),
                { !c.named && (c.kind_is("let") || c.kind_is("const") || c.kind_is("var")) }),
            Ghost(is_decl_keyword()),
        );
        let kind_text: &str = match keyword {
            Some(c) => c.kind.as_str(),
            None => "",
        };
        proof {
            reveal_strlit("");
            assert(kind_text@ == match find_child(*node, is_decl_keyword()) {
                Some(c) => c.kind@,
                None => Seq::<char>::empty(),
            });
        }
        let (decl_kind, scope_level) = Self::decl_kind_and_scope(kind_text);
        let annotations = Annotations {
            scope_level,
            declaration_kind: decl_kind,
            is_async: false,
            is_generator: false,
            is_export: false,
            is_default: false,
        };
        let ghost ann = decl_annotations(scope_level, decl_kind);
        let mut nodes: Vec<IrNode> = Vec::new();
        let mut i: usize = 0;
        while i < node.children.len()
            invariant
                *self == *old(self),
                0 <= i <= node.children@.len(),
                annotations == ann,
                model_ir_node_seq(nodes@) == self@.declarators_upto(*node, i as int, ann),
            decreases node.children@.len() - i,
        {
            let declarator = &node.children[i];
            if declarator.kind_is("variable_declarator") {
                let (name, pattern) = self.field_name_and_pattern(declarator, "name")?;
                let value = self.opt_field_expression(declarator, "value")?;
                let ghost lowered = model_opt_ir_expr(value);
                let value = match value {
                    Some(IrExpr::FunctionExpr(mut f)) => {
                        if f.name.is_none() && pattern.is_none() {
                            f.name = Some(name.clone());
                        }
                        Some(IrExpr::FunctionExpr(f))
                    },
                    other => other,
                };
                assert(model_opt_ir_expr(value) == name_function_value(lowered, name@, model_opt_pattern(pattern)));
                let ghost before = nodes@;
                let n = IrNode::VariableDecl(VariableDecl { span: declarator.span, name, value, pattern, annotations });
                nodes.push(n);
                proof {
                    lemma_model_ir_node_seq_push(before, n);
                }
            }
            i = i + 1;
        }
        if nodes.len() == 0 {
            let n = IrNode::VariableDecl(VariableDecl {
                span: node.span,
                name: String::new(),
                value: None,
                pattern: None,
                annotations,
            });
            nodes.push(n);
            proof {
                lemma_model_ir_node_seq_push(Seq::empty(), n);
                assert(nodes@ =~= Seq::<IrNode>::empty().push(n));
            }
        }
        Ok(nodes)
    }
}

} // verus!
