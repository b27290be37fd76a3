//! Lowering of a concrete syntax tree into the common IR.
//!
//! Lowering recognizes constructs and maps them to IR nodes in source order;
//! what it does not recognize it keeps as opaque nodes. It never fails: every
//! lowering function returns `Ok`.
mod control_flow;
mod decl;
mod error;
mod expr;
mod helpers;
mod parts;
pub mod laws;
pub mod spec;

use vstd::prelude::*;
use vstd::string::StringExecFns;

use crate::cst::{find_child, first_named, is_named, lemma_find_child, same_child, CstNode};
use crate::ir::{Block, ExpressionStatement, IrExpr, IrModule, IrNode, OpaqueExpr, OpaqueNode};
use crate::ir_model::{
    lemma_model_ir_node_seq, lemma_model_ir_node_seq_concat, lemma_model_ir_node_seq_push,
    model_ir_node_seq, model_opt_ir_node, SpecIrModule,
};
use crate::parser::Language;

use self::helpers::{find_child_by, find_child_kind};
use self::spec::{
    cast_operand, is_assertion_operand, is_variable_declaration, lemma_cast_operand,
    mark_all_exported, mark_exported, LowererModel,
};

pub use error::LowerError;

verus! {

broadcast use crate::ir_model::group_model_len;

/// The state of a lowering run: the language and the source text.
pub struct JsLowerer {
    pub language: Language,
    pub source: String,
}

impl View for JsLowerer {
    type V = LowererModel;

    open spec fn view(&self) -> LowererModel {
        LowererModel { language: self.language, source: self.source@ }
    }
}

/// The module that a whole program lowers to.
pub open spec fn spec_lower(cst: CstNode, language: Language, source: Seq<char>) -> SpecIrModule {
    SpecIrModule { span: cst.span, body: LowererModel { language, source }.spec_lower_children(cst) }
}

/// Lowers a whole program. Lowering never fails.
pub fn lower(cst: &CstNode, language: Language, source: &str) -> (r: Result<IrModule, LowerError>)
    ensures
        r matches Ok(m) && m@ == spec_lower(*cst, language, source@),
{
    let mut lowerer = JsLowerer::new(language, source);
    lowerer.lower_program(cst)
}

impl JsLowerer {
    /// A lowerer for `language` over `source`.
    pub fn new(language: Language, source: &str) -> (r: Self)
        ensures
            r@ == (LowererModel { language, source: source@ }),
    {
        JsLowerer { language, source: String::from_str(source) }
    }

    /// Lowers a program: its children, in order, under its span.
    pub fn lower_program(&mut self, cst: &CstNode) -> (r: Result<IrModule, LowerError>)
        ensures
            *final(self) == *old(self),
            r matches Ok(m) && m@ == (SpecIrModule {
                span: cst.span,
                body: old(self)@.spec_lower_children(*cst),
            }),
    {
        let body = self.lower_children(cst)?;
        Ok(IrModule { span: cst.span, body })
    }

    /// Lowers the children of `parent`, in order. A variable declaration
    /// contributes one node per declarator; so does an export of one, with
    /// each node marked as exported.
    pub fn lower_children(&mut self, parent: &CstNode) -> (r: Result<Vec<IrNode>, LowerError>)
        ensures
            *final(self) == *old(self),
            r matches Ok(v) && model_ir_node_seq(v@) == old(self)@.spec_lower_children(*parent),
        decreases parent, 7int, 0int,
    {
        let mut nodes: Vec<IrNode> = Vec::new();
        let mut i: usize = 0;
        while i < parent.children.len()
            invariant
                *self == *old(self),
                0 <= i <= parent.children@.len(),
                model_ir_node_seq(nodes@) == self@.lower_children_upto(*parent, i as int),
            decreases parent.children@.len() - i,
        {
            let child = &parent.children[i];
            let ghost before = nodes@;
            if child.kind_is("lexical_declaration") || child.kind_is("variable_declaration") {
                let mut decls = self.lower_variable_declaration(child)?;
                let ghost added = decls@;
                nodes.append(&mut decls);
                proof {
                    lemma_model_ir_node_seq_concat(before, added);
                }
            } else {
                let decl = if child.kind_is("export_statement") {
                    find_child_by(
                        child,
                        (|c: &CstNode| -> (b: bool)
                            ensures
                                b == (c.kind@ == "lexical_declaration"@ || c.kind@
                                    == "variable_declaration"@),
                            { c.kind_is("lexical_declaration") || c.kind_is("variable_declaration") }),
                        Ghost(is_variable_declaration()),
                    )
                } else {
                    None
                };
                match decl {
                    Some(d) => {
                        proof {
                            lemma_find_child(*child, is_variable_declaration());
                        }
                        let decls = self.lower_variable_declaration(d)?;
                        let ghost lowered = decls@;
                        let mut marked = mark_exported_nodes(decls);
                        let ghost added = marked@;
                        nodes.append(&mut marked);
                        proof {
                            lemma_model_ir_node_seq_concat(before, added);
                        }
                    },
                    None => {
                        let lowered = self.lower_node(child)?;
                        match lowered {
                            Some(n) => {
                                nodes.push(n);
                                proof {
                                    lemma_model_ir_node_seq_push(before, n);
                                }
                            },
                            None => {},
                        }
                    },
                }
            }
            i = i + 1;
        }
        Ok(nodes)
    }

    /// Lowers a statement. Tokens, TypeScript type nodes, empty statements
    /// and comments lower to nothing; an unrecognized statement is kept
    /// opaque.
    pub fn lower_node(&mut self, node: &CstNode) -> (r: Result<Option<IrNode>, LowerError>)
        ensures
            *final(self) == *old(self),
            r matches Ok(n) && model_opt_ir_node(n) == old(self)@.spec_lower_node(*node),
        decreases node, 11int, 0int,
    {
        if !node.named {
            return Ok(None);
        }
        if self.language != Language::JavaScript && Self::is_ts_type_node(node.kind.as_str()) {
            return Ok(None);
        }
        if node.kind_is("lexical_declaration") || node.kind_is("variable_declaration") {
            let mut v = self.lower_variable_declaration(node)?;
            proof {
                lemma_model_ir_node_seq(v@);
            }
            if v.len() > 0 {
                Ok(Some(v.remove(0)))
            } else {
                Ok(None)
            }
        } else if node.kind_is("function_declaration") || node.kind_is(
            "generator_function_declaration",
        ) {
            Ok(Some(self.lower_function_declaration(node)?))
        } else if node.kind_is("class_declaration") {
            Ok(Some(self.lower_class_declaration(node)?))
        } else if node.kind_is("import_statement") {
            Ok(Some(self.lower_import_declaration(node)?))
        } else if node.kind_is("export_statement") {
            Ok(Some(self.lower_export_declaration(node)?))
        } else if node.kind_is("if_statement") {
            Ok(Some(self.lower_if_statement(node)?))
        } else if node.kind_is("for_statement") {
            Ok(Some(self.lower_for_statement(node)?))
        } else if node.kind_is("for_in_statement") || node.kind_is("for_of_statement") {
            Ok(Some(self.lower_for_in_statement(node)?))
        } else if node.kind_is("while_statement") {
            Ok(Some(self.lower_while_statement(node)?))
        } else if node.kind_is("do_statement") {
            Ok(Some(self.lower_do_while_statement(node)?))
        } else if node.kind_is("switch_statement") {
            Ok(Some(self.lower_switch_statement(node)?))
        } else if node.kind_is("try_statement") {
            Ok(Some(self.lower_try_statement(node)?))
        } else if node.kind_is("return_statement") {
            Ok(Some(self.lower_return_statement(node)?))
        } else if node.kind_is("throw_statement") {
            Ok(Some(self.lower_throw_statement(node)?))
        } else if node.kind_is("break_statement") {
            Ok(Some(self.lower_break_statement(node)?))
        } else if node.kind_is("continue_statement") {
            Ok(Some(self.lower_continue_statement(node)?))
        } else if node.kind_is("labeled_statement") {
            Ok(Some(self.lower_labeled_statement(node)?))
        } else if node.kind_is("method_definition") {
            Ok(Some(self.lower_method_definition(node)?))
        } else if node.kind_is("field_definition") || node.kind_is("public_field_definition") {
            Ok(Some(self.lower_property_definition(node)?))
        } else if node.kind_is("expression_statement") {
            let expr_child = self.first_named_child(node);
            match expr_child {
                Some(child) => {
                    proof {
                        lemma_find_child(*node, is_named());
                    }
                    let expr = self.lower_expression(child)?;
                    Ok(Some(IrNode::ExpressionStatement(ExpressionStatement { span: node.span, expression: expr })))
                },
                None => Ok(None),
            }
        } else if node.kind_is("statement_block") {
            let block = self.lower_block(node)?;
            Ok(Some(IrNode::Block(block)))
        } else if node.kind_is("empty_statement") || node.kind_is("comment") {
            Ok(None)
        } else {
            Ok(Some(IrNode::Opaque(OpaqueNode { span: node.span, cst_kind: node.kind.clone(), text: self.node_text(node) })))
        }
    }

    /// Lowers an expression. A TypeScript cast, assertion or `satisfies` is
    /// looked through to its operand (the expression it applies to, itself
    /// possibly another cast); another TypeScript type node, and any
    /// unrecognized expression, is kept opaque; parentheses are unwrapped.
    pub fn lower_expression(&mut self, node: &CstNode) -> (r: Result<IrExpr, LowerError>)
        ensures
            *final(self) == *old(self),
            r matches Ok(e) && e@ == old(self)@.spec_lower_expression(*node),
        decreases node, 11int, 0int,
    {
        if self.language != Language::JavaScript && (node.kind_is("as_expression") || node.kind_is(
            "satisfies_expression",
        ) || node.kind_is("non_null_expression") || node.kind_is("type_assertion")) {
            let operand = if node.kind_is("type_assertion") {
                find_child_by(
                    node,
                    (|c: &CstNode| -> (b: bool)
                        ensures
                            b == (c.named && c.kind@ != "type_arguments"@),
                        { c.named && !c.kind_is("type_arguments") }),
                    Ghost(is_assertion_operand()),
                )
            } else {
                self.first_named_child(node)
            };
            assert(same_child(operand, cast_operand(*node)));
            return match operand {
                Some(c) => {
                    proof {
                        lemma_cast_operand(*node);
                    }
                    self.lower_expression(c)
                },
                None => Ok(IrExpr::Opaque(OpaqueExpr { span: node.span, cst_kind: node.kind.clone(), text: self.node_text(node) })),
            };
        }
        if self.language != Language::JavaScript && Self::is_ts_type_node(node.kind.as_str()) {
            return Ok(IrExpr::Opaque(OpaqueExpr { span: node.span, cst_kind: node.kind.clone(), text: self.node_text(node) }));
        }
        if node.kind_is("assignment_expression") || node.kind_is("augmented_assignment_expression") {
            self.lower_assignment_expression(node)
        } else if node.kind_is("call_expression") {
            self.lower_call_expression(node)
        } else if node.kind_is("member_expression") {
            self.lower_member_expression(node)
        } else if node.kind_is("subscript_expression") {
            self.lower_subscript_expression(node)
        } else if node.kind_is("binary_expression") {
            self.lower_binary_expression(node)
        } else if node.kind_is("identifier") || node.kind_is("shorthand_property_identifier")
            || node.kind_is("property_identifier") || node.kind_is("this") || node.kind_is("super") {
            Ok(self.lower_identifier(node))
        } else if node.kind_is("number") {
            Ok(self.lower_number_literal(node))
        } else if node.kind_is("string") {
            Ok(self.lower_string_literal(node))
        } else if node.kind_is("template_string") {
            self.lower_template_string(node)
        } else if node.kind_is("true") || node.kind_is("false") {
            Ok(self.lower_boolean_literal(node))
        } else if node.kind_is("null") {
            Ok(self.lower_null_literal(node))
        } else if node.kind_is("undefined") {
            Ok(self.lower_undefined(node))
        } else if node.kind_is("unary_expression") {
            self.lower_unary_expression(node)
        } else if node.kind_is("update_expression") {
            self.lower_update_expression(node)
        } else if node.kind_is("ternary_expression") {
            self.lower_conditional_expression(node)
        } else if node.kind_is("arrow_function") {
            self.lower_arrow_function(node)
        } else if node.kind_is("function_expression") || node.kind_is("generator_function") {
            self.lower_function_expression(node)
        } else if node.kind_is("new_expression") {
            self.lower_new_expression(node)
        } else if node.kind_is("await_expression") {
            self.lower_await_expression(node)
        } else if node.kind_is("yield_expression") {
            self.lower_yield_expression(node)
        } else if node.kind_is("spread_element") {
            self.lower_spread_expression(node)
        } else if node.kind_is("array") {
            self.lower_array_expression(node)
        } else if node.kind_is("object") {
            self.lower_object_expression(node)
        } else if node.kind_is("parenthesized_expression") {
            match self.first_named_child(node) {
                Some(child) => {
                    proof {
                        lemma_find_child(*node, is_named());
                    }
                    self.lower_expression(child)
                },
                None => Ok(IrExpr::Opaque(OpaqueExpr { span: node.span, cst_kind: node.kind.clone(), text: self.node_text(node) })),
            }
        } else {
            Ok(IrExpr::Opaque(OpaqueExpr { span: node.span, cst_kind: node.kind.clone(), text: self.node_text(node) }))
        }
    }

    /// Lowers the children of `node` as a block.
    pub fn lower_block(&mut self, node: &CstNode) -> (r: Result<Block, LowerError>)
        ensures
            *final(self) == *old(self),
            r matches Ok(b) && b@ == old(self)@.spec_lower_block(*node),
        decreases node, 8int, 0int,
    {
        let body = self.lower_children(node)?;
        Ok(Block { span: node.span, body })
    }
}

/// The same nodes, with each variable declaration marked as exported.
fn mark_exported_nodes(nodes: Vec<IrNode>) -> (r: Vec<IrNode>)
    ensures
        model_ir_node_seq(r@) == mark_all_exported(model_ir_node_seq(nodes@)),
{
    let ghost orig = nodes@;
    let mut rest = nodes;
    let mut out: Vec<IrNode> = Vec::new();
    proof {
        lemma_model_ir_node_seq(orig);
    }
    while rest.len() > 0
        invariant
            out@.len() + rest@.len() == orig.len(),
            rest@ == orig.subrange(out@.len() as int, orig.len() as int),
            model_ir_node_seq(out@) == mark_all_exported(model_ir_node_seq(orig).subrange(0, out@.len() as int)),
            model_ir_node_seq(orig).len() == orig.len(),
            forall|i: int| 0 <= i < orig.len() ==> #[trigger] model_ir_node_seq(orig)[i] == orig[i]@,
        decreases rest@.len(),
    {
        let ghost before = out@;
        let n = rest.remove(0);
        let m = match n {
            IrNode::VariableDecl(mut v) => {
                v.annotations.is_export = true;
                IrNode::VariableDecl(v)
            },
            other => other,
        };
        out.push(m);
        proof {
            lemma_model_ir_node_seq_push(before, m);
            assert(model_ir_node_seq(out@) =~= mark_all_exported(model_ir_node_seq(orig).subrange(0, out@.len() as int)));
        }
    }
    proof {
        assert(model_ir_node_seq(orig).subrange(0, out@.len() as int) =~= model_ir_node_seq(orig));
        assert(model_ir_node_seq(out@) =~= mark_all_exported(model_ir_node_seq(orig)));
    }
    out
}

} // verus!
