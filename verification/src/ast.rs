//! The abstract syntax tree built by the parser, and its mathematical view.

use vstd::prelude::*;

verus! {

/// A closed tagged tree value, one variant per construct of the language.
/// Non-leaf nodes exclusively own their children; the tree is acyclic and
/// immutable once built.
#[derive(PartialEq, Debug)]
pub enum AstNode {
    /// A whole program: `program <id> ; <statement> end`.
    Program { id: Box<AstNode>, statement: Box<AstNode> },
    /// Two statements joined by `;`, right-associated.
    Semicolon { statement1: Box<AstNode>, statement2: Box<AstNode> },
    /// An assignment: `<id> := <expression>`.
    Assign { id: Box<AstNode>, expression: Box<AstNode> },
    /// A conditional: `if <comparison> then <statement1> else <statement2>`.
    If { comparison: Box<AstNode>, statement1: Box<AstNode>, statement2: Box<AstNode> },
    /// A loop: `while <comparison> do <statement>`.
    While { comparison: Box<AstNode>, statement: Box<AstNode> },
    /// An input statement: `read <id>`.
    Read { id: Box<AstNode> },
    /// An output statement: `write <expression>`.
    Write { expression: Box<AstNode> },
    /// A comparison: `<expression1> <operator> <expression2>`.
    Comparison { operator: Box<AstNode>, expression1: Box<AstNode>, expression2: Box<AstNode> },
    /// A binary arithmetic operation, right-associated.
    Expression { operator: Box<AstNode>, expression1: Box<AstNode>, expression2: Box<AstNode> },
    /// A comparison operator leaf.
    Cop(String),
    /// An arithmetic operator leaf.
    Op(String),
    /// An identifier leaf.
    Id(String),
    /// An integer literal leaf.
    Integer(i32),
}

/// The mathematical value of an [`AstNode`]: the same tree with texts as
/// `Seq<char>` and integers as `int`.
pub ghost enum SpecAst {
    Program { id: Box<SpecAst>, statement: Box<SpecAst> },
    Semicolon { statement1: Box<SpecAst>, statement2: Box<SpecAst> },
    Assign { id: Box<SpecAst>, expression: Box<SpecAst> },
    If { comparison: Box<SpecAst>, statement1: Box<SpecAst>, statement2: Box<SpecAst> },
    While { comparison: Box<SpecAst>, statement: Box<SpecAst> },
    Read { id: Box<SpecAst> },
    Write { expression: Box<SpecAst> },
    Comparison { operator: Box<SpecAst>, expression1: Box<SpecAst>, expression2: Box<SpecAst> },
    Expression { operator: Box<SpecAst>, expression1: Box<SpecAst>, expression2: Box<SpecAst> },
    Cop(Seq<char>),
    Op(Seq<char>),
    Id(Seq<char>),
    Integer(int),
}

/// The mathematical value of a node, defined by structural recursion.
pub open spec fn ast_view(a: AstNode) -> SpecAst
    decreases a,
{
    match a {
        AstNode::Program { id, statement } => SpecAst::Program {
            id: Box::new(ast_view(*id)),
            statement: Box::new(ast_view(*statement)),
        },
        AstNode::Semicolon { statement1, statement2 } => SpecAst::Semicolon {
            statement1: Box::new(ast_view(*statement1)),
            statement2: Box::new(ast_view(*statement2)),
        },
        AstNode::Assign { id, expression } => SpecAst::Assign {
            id: Box::new(ast_view(*id)),
            expression: Box::new(ast_view(*expression)),
        },
        AstNode::If { comparison, statement1, statement2 } => SpecAst::If {
            comparison: Box::new(ast_view(*comparison)),
            statement1: Box::new(ast_view(*statement1)),
            statement2: Box::new(ast_view(*statement2)),
        },
        AstNode::While { comparison, statement } => SpecAst::While {
            comparison: Box::new(ast_view(*comparison)),
            statement: Box::new(ast_view(*statement)),
        },
        AstNode::Read { id } => SpecAst::Read { id: Box::new(ast_view(*id)) },
        AstNode::Write { expression } => SpecAst::Write {
            expression: Box::new(ast_view(*expression)),
        },
        AstNode::Comparison { operator, expression1, expression2 } => SpecAst::Comparison {
            operator: Box::new(ast_view(*operator)),
            expression1: Box::new(ast_view(*expression1)),
            expression2: Box::new(ast_view(*expression2)),
        },
        AstNode::Expression { operator, expression1, expression2 } => SpecAst::Expression {
            operator: Box::new(ast_view(*operator)),
            expression1: Box::new(ast_view(*expression1)),
            expression2: Box::new(ast_view(*expression2)),
        },
        AstNode::Cop(s) => SpecAst::Cop(s@),
        AstNode::Op(s) => SpecAst::Op(s@),
        AstNode::Id(s) => SpecAst::Id(s@),
        AstNode::Integer(i) => SpecAst::Integer(i as int),
    }
}

impl View for AstNode {
    type V = SpecAst;

    open spec fn view(&self) -> SpecAst {
        ast_view(*self)
    }
}

} // verus!
