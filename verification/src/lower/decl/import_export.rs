//! Lowering of `import` and `export` statements.
use vstd::prelude::*;
use vstd::string::StringExecFns;

use crate::cst::{is_named, lemma_find_child, CstNode};
use crate::ir::{
    ExportDecl, ExportSpecifier, ExpressionStatement, ImportDecl, ImportDefault, ImportNamed,
    ImportNamespace, ImportSpecifier, IrNode, OpaqueNode,
};
use crate::ir_model::{
    lemma_model_export_specifier_seq_push, lemma_model_import_specifier_seq_concat,
    lemma_model_import_specifier_seq_push, model_export_specifier_seq, model_import_specifier_seq,
    SpecExpressionStatement, SpecIrNode,
};
use crate::lower::helpers::{find_child_by, find_child_kind, has_token};
use crate::lower::spec::{is_default_export_candidate, is_function_or_class};
use crate::lower::{JsLowerer, LowerError};

verus! {

broadcast use crate::ir_model::group_model_len;

impl JsLowerer {
    /// Lowers an `import` statement: its default, named and namespace
    /// bindings in source order, and its module source without quotes.
    pub fn lower_import_declaration(&mut self, node: &CstNode) -> (r: Result<IrNode, LowerError>)
        ensures
            *final(self) == *old(self),
            r matches Ok(n) && n@ == old(self)@.spec_lower_import_declaration(*node),
    {
        let source = match self.child_by_field(node, "source") {
            Some(s) => Self::strip_quotes(self.node_text(s)),
            None => String::new(),
        };
        let mut specifiers: Vec<ImportSpecifier> = Vec::new();
        let mut i: usize = 0;
        while i < node.children.len()
            invariant
                0 <= i <= node.children@.len(),
                model_import_specifier_seq(specifiers@) == self@.import_specifiers_upto(*node, i as int),
            decreases node.children@.len() - i,
        {
            let child = &node.children[i];
            let ghost before = specifiers@;
            if child.kind_is("identifier") {
                // import x from 'mod'
                let s = ImportSpecifier::Default(ImportDefault { span: child.span, local: self.node_text(child) });
                specifiers.push(s);
                proof {
                    lemma_model_import_specifier_seq_push(before, s);
                }
            } else if child.kind_is("import_clause") {
                // import x, { y as z }, * as ns from 'mod'
                let mut j: usize = 0;
                while j < child.children.len()
                    invariant
                        0 <= j <= child.children@.len(),
                        0 <= i < node.children@.len(),
                        *child == node.children@[i as int],
                        model_import_specifier_seq(specifiers@) == model_import_specifier_seq(before)
                            + self@.import_clause_upto(*child, j as int),
                    decreases child.children@.len() - j,
                {
                    let inner = &child.children[j];
                    let ghost mid = specifiers@;
                    if inner.kind_is("identifier") {
                        let s = ImportSpecifier::Default(ImportDefault { span: inner.span, local: self.node_text(inner) });
                        specifiers.push(s);
                        proof {
                            lemma_model_import_specifier_seq_push(mid, s);
                        }
                    } else if inner.kind_is("named_imports") {
                        self.collect_named_imports(inner, &mut specifiers);
                    } else if inner.kind_is("namespace_import") {
                        let s = self.namespace_import(inner);
                        specifiers.push(s);
                        proof {
                            lemma_model_import_specifier_seq_push(mid, s);
                        }
                    }
                    j = j + 1;
                }
            } else if child.kind_is("named_imports") {
                // import { x } from 'mod'
                self.collect_named_imports(child, &mut specifiers);
            } else if child.kind_is("namespace_import") {
                // import * as ns from 'mod'
                let s = self.namespace_import(child);
                specifiers.push(s);
                proof {
                    lemma_model_import_specifier_seq_push(before, s);
                }
            }
            i = i + 1;
        }
        Ok(IrNode::ImportDecl(ImportDecl { span: node.span, specifiers, source }))
    }

    /// The namespace binding `* as ns`.
    fn namespace_import(&self, node: &CstNode) -> (r: ImportSpecifier)
        ensures
            r@ == self@.namespace_import(*node),
    {
        let local = match self.first_named_child(node) {
            Some(n) => self.node_text(n),
            None => String::new(),
        };
        ImportSpecifier::Namespace(ImportNamespace { span: node.span, local })
    }

    /// Appends the named imports in `{ ... }`; the local name is the alias
    /// where there is one, else the imported name.
    fn collect_named_imports(&self, node: &CstNode, specifiers: &mut Vec<ImportSpecifier>)
        ensures
            model_import_specifier_seq(final(specifiers)@) == model_import_specifier_seq(old(specifiers)@)
                + self@.named_imports_upto(*node, node.children@.len() as int),
    {
        let ghost start = specifiers@;
        let mut i: usize = 0;
        while i < node.children.len()
            invariant
                0 <= i <= node.children@.len(),
                model_import_specifier_seq(specifiers@) == model_import_specifier_seq(start)
                    + self@.named_imports_upto(*node, i as int),
            decreases node.children@.len() - i,
        {
            let child = &node.children[i];
            if child.kind_is("import_specifier") {
                let imported = match self.child_by_field(child, "name") {
                    Some(n) => self.node_text(n),
                    None => String::new(),
                };
                let local = match self.child_by_field(child, "alias") {
                    Some(a) => self.node_text(a),
                    None => imported.clone(),
                };
                let ghost before = specifiers@;
                let s = ImportSpecifier::Named(ImportNamed { span: child.span, imported, local });
                specifiers.push(s);
                proof {
                    lemma_model_import_specifier_seq_push(before, s);
                }
            }
            i = i + 1;
        }
    }

    /// Lowers an `export` statement. An exported function or class is lowered
    /// as that declaration, marked as exported (and as default where
    /// `default` is written); any other export becomes an export declaration
    /// with its specifiers, its default expression and its module source.
    pub fn lower_export_declaration(&mut self, node: &CstNode) -> (r: Result<IrNode, LowerError>)
        ensures
            *final(self) == *old(self),
            r matches Ok(n) && n@ == old(self)@.spec_lower_export_declaration(*node),
        decreases node, 9int, 0int,
    {
        proof {
            lemma_find_child(*node, is_function_or_class());
            lemma_find_child(*node, is_default_export_candidate());
        }
        let is_default = has_token(node, "default");
        let source = match self.child_by_field(node, "source") {
            Some(s) => Some(Self::strip_quotes(self.node_text(s))),
            None => None,
        };
        let decl_child = find_child_by(
            node,
            (|c: &CstNode| -> (b: bool)
                ensures
                    b == (c.kind@ == "function_declaration"@ || c.kind@
                        == "generator_function_declaration"@ || c.kind@ == "class_declaration"@),
                {
                    c.kind_is("function_declaration") || c.kind_is("generator_function_declaration")
                        || c.kind_is("class_declaration")
                }),
            Ghost(is_function_or_class()),
        );
        if let Some(decl) = decl_child {
            let inner = self.lower_node(decl)?;
            return Ok(match inner {
                Some(IrNode::FunctionDecl(mut f)) => {
                    f.annotations.is_export = true;
                    f.annotations.is_default = is_default;
                    IrNode::FunctionDecl(f)
                },
                Some(IrNode::ClassDecl(mut c)) => {
                    c.annotations.is_export = true;
                    c.annotations.is_default = is_default;
                    IrNode::ClassDecl(c)
                },
                Some(other) => other,
                None => IrNode::Opaque(OpaqueNode { span: node.span, cst_kind: node.kind.clone(), text: self.node_text(node) }),
            });
        }
        // export { x, y as z } or export { x } from 'mod'

        let mut specifiers: Vec<ExportSpecifier> = Vec::new();
        match find_child_kind(node, "export_clause") {
            Some(export_clause) => {
                let mut i: usize = 0;
                while i < export_clause.children.len()
                    invariant
                        0 <= i <= export_clause.children@.len(),
                        model_export_specifier_seq(specifiers@) == self@.export_specifiers_upto(*export_clause, i as int),
                    decreases export_clause.children@.len() - i,
                {
                    let child = &export_clause.children[i];
                    if child.kind_is("export_specifier") {
                        let local = match self.child_by_field(child, "name") {
                            Some(n) => self.node_text(n),
                            None => String::new(),
                        };
                        let exported = match self.child_by_field(child, "alias") {
                            Some(a) => self.node_text(a),
                            None => local.clone(),
                        };
                        let ghost before = specifiers@;
                        let s = ExportSpecifier { span: child.span, local, exported };
                        specifiers.push(s);
                        proof {
                            lemma_model_export_specifier_seq_push(before, s);
                        }
                    }
                    i = i + 1;
                }
            },
            None => {},
        }
        // export default <expression>
        let declaration = if is_default {
            let candidate = find_child_by(
                node,
                (|c: &CstNode| -> (b: bool)
                    ensures
                        b == (c.named && c.kind@ != "export_clause"@ && c.kind@ != "string"@),
                    { c.named && !c.kind_is("export_clause") && !c.kind_is("string") }),
                Ghost(is_default_export_candidate()),
            );
            match candidate {
                Some(c) => {
                    if !c.kind_is("comment") {
                        let expr = self.lower_expression(c)?;
                        let ghost e_model = expr@;
                        let stmt = IrNode::ExpressionStatement(ExpressionStatement { span: c.span, expression: expr });
                        assert(stmt@ == SpecIrNode::ExpressionStatement(SpecExpressionStatement { span: c.span, expression: e_model }));
                        Some(Box::new(stmt))
                    } else {
                        None
                    }
                },
                None => None,
            }
        } else {
            None
        };
        // export * from 'mod'
        if has_token(node, "*") {
            let ghost before = specifiers@;
            let s = ExportSpecifier { span: node.span, local: String::from_str("*"), exported: String::from_str("*") };
            specifiers.push(s);
            proof {
                lemma_model_export_specifier_seq_push(before, s);
            }
        }
        Ok(IrNode::ExportDecl(ExportDecl { span: node.span, declaration, specifiers, source, is_default }))
    }
}

} // verus!
