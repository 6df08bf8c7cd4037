//! The executable recursive-descent parser.
//!
//! Every function takes the token buffer and a cursor position, consumes a
//! matching prefix, and returns the tree it built together with the
//! position of the first unconsumed token, or the error text.  Each one is
//! proved to return exactly the outcome of the corresponding spec function
//! in [`crate::grammar`], and on success the new position lies strictly
//! past `pos` and never past the end of the buffer, so the remainder is
//! exactly the suffix after the matched construct.

use crate::ast::AstNode;
use crate::grammar::ParseOutcome;
use crate::grammar::spec_parse_comparison;
use crate::grammar::spec_parse_expression;
use crate::grammar::spec_parse_factor;
use crate::grammar::spec_parse_program;
use crate::grammar::spec_parse_statement;
use crate::grammar::spec_parse_statement_sequence;
use crate::grammar::spec_parse_term;
use crate::token::Token;
use crate::token::tokens_view;
use vstd::prelude::*;

verus! {

/// How an executable result must relate to a [`ParseOutcome`]: the same
/// success or failure, the same tree, the same error text, and on success
/// a cursor that moved strictly forward and stayed inside the buffer.
pub open spec fn outcome_matches(
    pos: int,
    len: int,
    r: Result<(Box<AstNode>, usize), String>,
    outcome: ParseOutcome,
) -> bool {
    match r {
        Ok(parsed) => outcome matches ParseOutcome::Parsed(ast, end) && parsed.0@ == ast
            && parsed.1 as int == end && pos < parsed.1 as int && parsed.1 as int <= len,
        Err(message) => outcome matches ParseOutcome::Failed(text) && message@ == text,
    }
}

/// Parses a whole token buffer as a program, discarding the remainder.
pub fn parse(tokens: &Vec<Token>) -> (r: Result<Box<AstNode>, String>)
    ensures
        (match r {
            Ok(ast) => spec_parse_program(tokens_view(tokens@), 0) matches ParseOutcome::Parsed(
                tree,
                _,
            ) && ast@ == tree,
            Err(message) => spec_parse_program(tokens_view(tokens@), 0)
                matches ParseOutcome::Failed(text) && message@ == text,
        }),
{
    match parse_program(tokens, 0) {
        Ok(parsed) => Ok(parsed.0),
        Err(message) => Err(message),
    }
}

/// `program <id> ; <statement> end`.
pub fn parse_program(tokens: &Vec<Token>, pos: usize) -> (r: Result<(Box<AstNode>, usize), String>)
    ensures
        outcome_matches(
            pos as int,
            tokens@.len() as int,
            r,
            spec_parse_program(tokens_view(tokens@), pos as int),
        ),
    decreases tokens@.len() - pos, 6int,
{
    proof {
        reveal_with_fuel(crate::ast::ast_view, 2);
    }
    if pos < tokens.len() && pos + 1 < tokens.len() && pos + 2 < tokens.len() && matches!(
        &tokens[pos],
        Token::Program,
    ) && matches!(&tokens[pos + 2], Token::Semicolon) {
        match &tokens[pos + 1] {
            Token::Id(name) => {
                let name = name.clone();
                match parse_statement(tokens, pos + 3) {
                    Ok((stat, mid)) => {
                        if mid < tokens.len() && matches!(&tokens[mid], Token::End) {
                            Ok((
                                Box::new(
                                    AstNode::Program {
                                        id: Box::new(AstNode::Id(name)),
                                        statement: stat,
                                    },
                                ),
                                mid + 1,
                            ))
                        } else {
                            Err("Expected 'end' after statement.".to_owned())
                        }
                    },
                    Err(message) => Err(message),
                }
            },
            _ => Err("Expected syntax: program <id> ; <stat> end".to_owned()),
        }
    } else {
        Err("Expected syntax: program <id> ; <stat> end".to_owned())
    }
}

/// `{ <statement> ; } <statement>`.
pub fn parse_statement_sequence(tokens: &Vec<Token>, pos: usize) -> (r: Result<
    (Box<AstNode>, usize),
    String,
>)
    ensures
        outcome_matches(
            pos as int,
            tokens@.len() as int,
            r,
            spec_parse_statement_sequence(tokens_view(tokens@), pos as int),
        ),
    decreases tokens@.len() - pos, 5int,
{
    match parse_statement(tokens, pos) {
        Ok((stat1, mid)) => {
            if mid < tokens.len() && matches!(&tokens[mid], Token::Semicolon) {
                match parse_statement_sequence(tokens, mid + 1) {
                    Ok((stat2, end)) => Ok((
                        Box::new(AstNode::Semicolon { statement1: stat1, statement2: stat2 }),
                        end,
                    )),
                    Err(message) => Err(message),
                }
            } else {
                Ok((stat1, mid))
            }
        },
        Err(message) => Err(message),
    }
}

/// One statement, dispatched on its leading token or two.
pub fn parse_statement(tokens: &Vec<Token>, pos: usize) -> (r: Result<
    (Box<AstNode>, usize),
    String,
>)
    ensures
        outcome_matches(
            pos as int,
            tokens@.len() as int,
            r,
            spec_parse_statement(tokens_view(tokens@), pos as int),
        ),
    decreases tokens@.len() - pos, 4int,
{
    proof {
        reveal_with_fuel(crate::ast::ast_view, 2);
    }
    if pos >= tokens.len() {
        return Err("Invalid statement".to_owned());
    }
    match &tokens[pos] {
        Token::Begin => match parse_statement_sequence(tokens, pos + 1) {
            Ok((stat, mid)) => {
                if mid < tokens.len() && matches!(&tokens[mid], Token::End) {
                    Ok((stat, mid + 1))
                } else {
                    Err("Expected 'end'.".to_owned())
                }
            },
            Err(message) => Err(message),
        },
        Token::Id(name) => {
            if pos + 1 < tokens.len() && matches!(&tokens[pos + 1], Token::Assign) {
                let name = name.clone();
                match parse_expression(tokens, pos + 2) {
                    Ok((expr, end)) => Ok((
                        Box::new(
                            AstNode::Assign { id: Box::new(AstNode::Id(name)), expression: expr },
                        ),
                        end,
                    )),
                    Err(message) => Err(message),
                }
            } else {
                Err("Invalid statement".to_owned())
            }
        },
        Token::If => match parse_comparison(tokens, pos + 1) {
            Ok((comp, m1)) => {
                if m1 < tokens.len() && matches!(&tokens[m1], Token::Then) {
                    match parse_statement(tokens, m1 + 1) {
                        Ok((stat1, m2)) => {
                            if m2 < tokens.len() && matches!(&tokens[m2], Token::Else) {
                                match parse_statement(tokens, m2 + 1) {
                                    Ok((stat2, end)) => Ok((
                                        Box::new(
                                            AstNode::If {
                                                comparison: comp,
                                                statement1: stat1,
                                                statement2: stat2,
                                            },
                                        ),
                                        end,
                                    )),
                                    Err(message) => Err(message),
                                }
                            } else {
                                Err("Expected 'else' after first statement.".to_owned())
                            }
                        },
                        Err(message) => Err(message),
                    }
                } else {
                    Err("Expected 'then' after comparison.".to_owned())
                }
            },
            Err(message) => Err(message),
        },
        Token::While => match parse_comparison(tokens, pos + 1) {
            Ok((comp, mid)) => {
                if mid < tokens.len() && matches!(&tokens[mid], Token::Do) {
                    match parse_statement(tokens, mid + 1) {
                        Ok((stat, end)) => Ok((
                            Box::new(AstNode::While { comparison: comp, statement: stat }),
                            end,
                        )),
                        Err(message) => Err(message),
                    }
                } else {
                    Err("Expected 'do' after comparison".to_owned())
                }
            },
            Err(message) => Err(message),
        },
        Token::Read => {
            if pos + 1 < tokens.len() {
                match &tokens[pos + 1] {
                    Token::Id(name) => Ok((
                        Box::new(AstNode::Read { id: Box::new(AstNode::Id(name.clone())) }),
                        pos + 2,
                    )),
                    _ => Err("Invalid statement".to_owned()),
                }
            } else {
                Err("Invalid statement".to_owned())
            }
        },
        Token::Write => match parse_expression(tokens, pos + 1) {
            Ok((expr, end)) => Ok((Box::new(AstNode::Write { expression: expr }), end)),
            Err(message) => Err(message),
        },
        _ => Err("Invalid statement".to_owned()),
    }
}

/// Exactly one `<expression> <cop> <expression>`.
pub fn parse_comparison(tokens: &Vec<Token>, pos: usize) -> (r: Result<
    (Box<AstNode>, usize),
    String,
>)
    ensures
        outcome_matches(
            pos as int,
            tokens@.len() as int,
            r,
            spec_parse_comparison(tokens_view(tokens@), pos as int),
        ),
    decreases tokens@.len() - pos, 3int,
{
    proof {
        reveal_with_fuel(crate::ast::ast_view, 2);
    }
    match parse_expression(tokens, pos) {
        Ok((expr1, mid)) => {
            if mid < tokens.len() {
                match &tokens[mid] {
                    Token::Cop(op) => {
                        let op = op.clone();
                        match parse_expression(tokens, mid + 1) {
                            Ok((expr2, end)) => Ok((
                                Box::new(
                                    AstNode::Comparison {
                                        operator: Box::new(AstNode::Cop(op)),
                                        expression1: expr1,
                                        expression2: expr2,
                                    },
                                ),
                                end,
                            )),
                            Err(message) => Err(message),
                        }
                    },
                    _ => Err("Expected COP after Expression.".to_owned()),
                }
            } else {
                Err("Expected COP after Expression.".to_owned())
            }
        },
        Err(message) => Err(message),
    }
}

/// `<term> [ <eop> <expression> ]`.
pub fn parse_expression(tokens: &Vec<Token>, pos: usize) -> (r: Result<
    (Box<AstNode>, usize),
    String,
>)
    ensures
        outcome_matches(
            pos as int,
            tokens@.len() as int,
            r,
            spec_parse_expression(tokens_view(tokens@), pos as int),
        ),
    decreases tokens@.len() - pos, 2int,
{
    proof {
        reveal_with_fuel(crate::ast::ast_view, 2);
    }
    match parse_term(tokens, pos) {
        Ok((term1, mid)) => {
            if mid < tokens.len() {
                match &tokens[mid] {
                    Token::Eop(op) => {
                        let op = op.clone();
                        match parse_expression(tokens, mid + 1) {
                            Ok((term2, end)) => Ok((
                                Box::new(
                                    AstNode::Expression {
                                        operator: Box::new(AstNode::Op(op)),
                                        expression1: term1,
                                        expression2: term2,
                                    },
                                ),
                                end,
                            )),
                            Err(message) => Err(message),
                        }
                    },
                    _ => Ok((term1, mid)),
                }
            } else {
                Ok((term1, mid))
            }
        },
        Err(message) => Err(message),
    }
}

/// `<factor> [ <top> <term> ]`.
pub fn parse_term(tokens: &Vec<Token>, pos: usize) -> (r: Result<(Box<AstNode>, usize), String>)
    ensures
        outcome_matches(
            pos as int,
            tokens@.len() as int,
            r,
            spec_parse_term(tokens_view(tokens@), pos as int),
        ),
    decreases tokens@.len() - pos, 1int,
{
    proof {
        reveal_with_fuel(crate::ast::ast_view, 2);
    }
    match parse_factor(tokens, pos) {
        Ok((factor1, mid)) => {
            if mid < tokens.len() {
                match &tokens[mid] {
                    Token::Top(op) => {
                        let op = op.clone();
                        match parse_term(tokens, mid + 1) {
                            Ok((factor2, end)) => Ok((
                                Box::new(
                                    AstNode::Expression {
                                        operator: Box::new(AstNode::Op(op)),
                                        expression1: factor1,
                                        expression2: factor2,
                                    },
                                ),
                                end,
                            )),
                            Err(message) => Err(message),
                        }
                    },
                    _ => Ok((factor1, mid)),
                }
            } else {
                Ok((factor1, mid))
            }
        },
        Err(message) => Err(message),
    }
}

/// An integer literal, an identifier, or `( <expression> )`.
pub fn parse_factor(tokens: &Vec<Token>, pos: usize) -> (r: Result<(Box<AstNode>, usize), String>)
    ensures
        outcome_matches(
            pos as int,
            tokens@.len() as int,
            r,
            spec_parse_factor(tokens_view(tokens@), pos as int),
        ),
    decreases tokens@.len() - pos, 0int,
{
    if pos >= tokens.len() {
        return Err("Expected ID, Integer, or Expression.".to_owned());
    }
    match &tokens[pos] {
        Token::Integer(i) => Ok((Box::new(AstNode::Integer(*i)), pos + 1)),
        Token::Id(name) => Ok((Box::new(AstNode::Id(name.clone())), pos + 1)),
        Token::Lparen => match parse_expression(tokens, pos + 1) {
            Ok((expr, mid)) => {
                if mid < tokens.len() && matches!(&tokens[mid], Token::Rparen) {
                    Ok((expr, mid + 1))
                } else {
                    Err("Expected ).".to_owned())
                }
            },
            Err(message) => Err(message),
        },
        _ => Err("Expected ID, Integer, or Expression.".to_owned()),
    }
}

} // verus!
