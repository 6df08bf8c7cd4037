//! Rendering an abstract syntax tree to text.
//!
//! Non-leaf nodes render as `tag(children...)` with one space between
//! children; leaves render as their literal text or decimal number.

use crate::ast::AstNode;
use crate::ast::SpecAst;
use crate::numeral::i32_text;
use crate::numeral::int_text;
use vstd::prelude::*;
use vstd::string::StringExecFns;

verus! {

/// The text of a tree, defined by structural recursion.
pub open spec fn spec_render(a: SpecAst) -> Seq<char>
    decreases a,
{
    match a {
        SpecAst::Program { id, statement } => "prog("@ + spec_render(*id) + " "@ + spec_render(
            *statement,
        ) + ")"@,
        SpecAst::Semicolon { statement1, statement2 } => ";("@ + spec_render(*statement1) + " "@
            + spec_render(*statement2) + ")"@,
        SpecAst::Assign { id, expression } => "assign("@ + spec_render(*id) + " "@ + spec_render(
            *expression,
        ) + ")"@,
        SpecAst::If { comparison, statement1, statement2 } => "if("@ + spec_render(*comparison)
            + " "@ + spec_render(*statement1) + " "@ + spec_render(*statement2) + ")"@,
        SpecAst::While { comparison, statement } => "while("@ + spec_render(*comparison) + " "@
            + spec_render(*statement) + ")"@,
        SpecAst::Read { id } => "read("@ + spec_render(*id) + ")"@,
        SpecAst::Write { expression } => "write("@ + spec_render(*expression) + ")"@,
        SpecAst::Comparison { operator, expression1, expression2 } => spec_render(*operator) + "("@
            + spec_render(*expression1) + " "@ + spec_render(*expression2) + ")"@,
        SpecAst::Expression { operator, expression1, expression2 } => spec_render(*operator) + "("@
            + spec_render(*expression1) + " "@ + spec_render(*expression2) + ")"@,
        SpecAst::Cop(s) => s,
        SpecAst::Op(s) => s,
        SpecAst::Id(s) => s,
        SpecAst::Integer(i) => int_text(i),
    }
}

impl AstNode {
    /// Renders the tree to its text, exactly as [`spec_render`] states it.
    pub fn to_string(&self) -> (r: String)
        ensures
            r@ == spec_render(self@),
        decreases self,
    {
        match self {
            AstNode::Program { id, statement } => {
                let mut s = "prog(".to_owned();
                s.append(id.to_string().as_str());
                s.append(" ");
                s.append(statement.to_string().as_str());
                s.append(")");
                s
            },
            AstNode::Semicolon { statement1, statement2 } => {
                let mut s = ";(".to_owned();
                s.append(statement1.to_string().as_str());
                s.append(" ");
                s.append(statement2.to_string().as_str());
                s.append(")");
                s
            },
            AstNode::Assign { id, expression } => {
                let mut s = "assign(".to_owned();
                s.append(id.to_string().as_str());
                s.append(" ");
                s.append(expression.to_string().as_str());
                s.append(")");
                s
            },
            AstNode::If { comparison, statement1, statement2 } => {
                let mut s = "if(".to_owned();
                s.append(comparison.to_string().as_str());
                s.append(" ");
                s.append(statement1.to_string().as_str());
                s.append(" ");
                s.append(statement2.to_string().as_str());
                s.append(")");
                s
            },
            AstNode::While { comparison, statement } => {
                let mut s = "while(".to_owned();
                s.append(comparison.to_string().as_str());
                s.append(" ");
                s.append(statement.to_string().as_str());
                s.append(")");
                s
            },
            AstNode::Read { id } => {
                let mut s = "read(".to_owned();
                s.append(id.to_string().as_str());
                s.append(")");
                s
            },
            AstNode::Write { expression } => {
                let mut s = "write(".to_owned();
                s.append(expression.to_string().as_str());
                s.append(")");
                s
            },
            AstNode::Comparison { operator, expression1, expression2 } => {
                let mut s = operator.to_string();
                s.append("(");
                s.append(expression1.to_string().as_str());
                s.append(" ");
                s.append(expression2.to_string().as_str());
                s.append(")");
                s
            },
            AstNode::Expression { operator, expression1, expression2 } => {
                let mut s = operator.to_string();
                s.append("(");
                s.append(expression1.to_string().as_str());
                s.append(" ");
                s.append(expression2.to_string().as_str());
                s.append(")");
                s
            },
            AstNode::Cop(op) => op.clone(),
            AstNode::Op(op) => op.clone(),
            AstNode::Id(id) => id.clone(),
            AstNode::Integer(i) => i32_text(*i),
        }
    }
}

} // verus!
