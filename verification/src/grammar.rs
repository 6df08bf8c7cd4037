//! The mathematical parser: one spec function per nonterminal.
//!
//! Each function takes the token sequence and a cursor position, and yields
//! either the tree for the construct it matched together with the position
//! just past that construct, or the text of the syntax error.  The
//! executable parser in [`crate::parser`] is proved to return exactly these
//! outcomes, so the grammar below is the single source of truth for what
//! parses, what tree is built, how many tokens are consumed, and which
//! error is reported.
//!
//! The descent is by fixed lookahead and never backtracks; operator chains
//! and statement sequences are right-associated by construction.  Guards of
//! the form `pos <= mid` record that the cursor never moves backwards; they
//! keep the recursion well-founded and always hold on positions an actual
//! parse can reach.

use crate::ast::SpecAst;
use crate::token::SpecToken;
use vstd::prelude::*;

verus! {

/// The outcome of parsing one nonterminal: the tree and the position just
/// past it, or the error text.
pub ghost enum ParseOutcome {
    Parsed(SpecAst, int),
    Failed(Seq<char>),
}

/// `program <id> ; <statement> end`.  The tokens after the final `end` are
/// left unconsumed; whether a remainder is an error is the caller's choice.
pub open spec fn spec_parse_program(toks: Seq<SpecToken>, pos: int) -> ParseOutcome
    decreases toks.len() - pos, 6int,
{
    if pos + 2 < toks.len() && toks[pos] is Program && toks[pos + 1] is Id && toks[pos
        + 2] is Semicolon {
        match spec_parse_statement(toks, pos + 3) {
            ParseOutcome::Parsed(stat, mid) => {
                if mid < toks.len() && pos <= mid && toks[mid] is End {
                    ParseOutcome::Parsed(
                        SpecAst::Program {
                            id: Box::new(SpecAst::Id(toks[pos + 1]->Id_0)),
                            statement: Box::new(stat),
                        },
                        mid + 1,
                    )
                } else {
                    ParseOutcome::Failed("Expected 'end' after statement."@)
                }
            },
            failure => failure,
        }
    } else {
        ParseOutcome::Failed("Expected syntax: program <id> ; <stat> end"@)
    }
}

/// `{ <statement> ; } <statement>`: one statement, or a `;`-joined chain,
/// combined right-associatively.
pub open spec fn spec_parse_statement_sequence(toks: Seq<SpecToken>, pos: int) -> ParseOutcome
    decreases toks.len() - pos, 5int,
{
    match spec_parse_statement(toks, pos) {
        ParseOutcome::Parsed(stat1, mid) => {
            if mid < toks.len() && pos <= mid && toks[mid] is Semicolon {
                match spec_parse_statement_sequence(toks, mid + 1) {
                    ParseOutcome::Parsed(stat2, end) => ParseOutcome::Parsed(
                        SpecAst::Semicolon {
                            statement1: Box::new(stat1),
                            statement2: Box::new(stat2),
                        },
                        end,
                    ),
                    failure => failure,
                }
            } else {
                ParseOutcome::Parsed(stat1, mid)
            }
        },
        failure => failure,
    }
}

/// One statement, dispatched on its leading token or two: a `begin ... end`
/// block, an assignment, a conditional, a loop, `read <id>` or
/// `write <expression>`.
pub open spec fn spec_parse_statement(toks: Seq<SpecToken>, pos: int) -> ParseOutcome
    decreases toks.len() - pos, 4int,
{
    if pos < toks.len() {
        match toks[pos] {
            SpecToken::Begin => match spec_parse_statement_sequence(toks, pos + 1) {
                ParseOutcome::Parsed(stat, mid) => {
                    if mid < toks.len() && pos <= mid && toks[mid] is End {
                        ParseOutcome::Parsed(stat, mid + 1)
                    } else {
                        ParseOutcome::Failed("Expected 'end'."@)
                    }
                },
                failure => failure,
            },
            SpecToken::Id(name) => {
                if pos + 1 < toks.len() && toks[pos + 1] is Assign {
                    match spec_parse_expression(toks, pos + 2) {
                        ParseOutcome::Parsed(expr, end) => ParseOutcome::Parsed(
                            SpecAst::Assign {
                                id: Box::new(SpecAst::Id(name)),
                                expression: Box::new(expr),
                            },
                            end,
                        ),
                        failure => failure,
                    }
                } else {
                    ParseOutcome::Failed("Invalid statement"@)
                }
            },
            SpecToken::If => match spec_parse_comparison(toks, pos + 1) {
                ParseOutcome::Parsed(comp, m1) => {
                    if m1 < toks.len() && pos <= m1 && toks[m1] is Then {
                        match spec_parse_statement(toks, m1 + 1) {
                            ParseOutcome::Parsed(stat1, m2) => {
                                if m2 < toks.len() && pos <= m2 && toks[m2] is Else {
                                    match spec_parse_statement(toks, m2 + 1) {
                                        ParseOutcome::Parsed(stat2, end) => ParseOutcome::Parsed(
                                            SpecAst::If {
                                                comparison: Box::new(comp),
                                                statement1: Box::new(stat1),
                                                statement2: Box::new(stat2),
                                            },
                                            end,
                                        ),
                                        failure => failure,
                                    }
                                } else {
                                    ParseOutcome::Failed("Expected 'else' after first statement."@)
                                }
                            },
                            failure => failure,
                        }
                    } else {
                        ParseOutcome::Failed("Expected 'then' after comparison."@)
                    }
                },
                failure => failure,
            },
            SpecToken::While => match spec_parse_comparison(toks, pos + 1) {
                ParseOutcome::Parsed(comp, mid) => {
                    if mid < toks.len() && pos <= mid && toks[mid] is Do {
                        match spec_parse_statement(toks, mid + 1) {
                            ParseOutcome::Parsed(stat, end) => ParseOutcome::Parsed(
                                SpecAst::While {
                                    comparison: Box::new(comp),
                                    statement: Box::new(stat),
                                },
                                end,
                            ),
                            failure => failure,
                        }
                    } else {
                        ParseOutcome::Failed("Expected 'do' after comparison"@)
                    }
                },
                failure => failure,
            },
            SpecToken::Read => {
                if pos + 1 < toks.len() && toks[pos + 1] is Id {
                    ParseOutcome::Parsed(
                        SpecAst::Read { id: Box::new(SpecAst::Id(toks[pos + 1]->Id_0)) },
                        pos + 2,
                    )
                } else {
                    ParseOutcome::Failed("Invalid statement"@)
                }
            },
            SpecToken::Write => match spec_parse_expression(toks, pos + 1) {
                ParseOutcome::Parsed(expr, end) => ParseOutcome::Parsed(
                    SpecAst::Write { expression: Box::new(expr) },
                    end,
                ),
                failure => failure,
            },
            _ => ParseOutcome::Failed("Invalid statement"@),
        }
    } else {
        ParseOutcome::Failed("Invalid statement"@)
    }
}

/// Exactly one `<expression> <cop> <expression>`; chained comparisons are
/// not part of the language.
pub open spec fn spec_parse_comparison(toks: Seq<SpecToken>, pos: int) -> ParseOutcome
    decreases toks.len() - pos, 3int,
{
    match spec_parse_expression(toks, pos) {
        ParseOutcome::Parsed(expr1, mid) => {
            if mid < toks.len() && pos <= mid && toks[mid] is Cop {
                match spec_parse_expression(toks, mid + 1) {
                    ParseOutcome::Parsed(expr2, end) => ParseOutcome::Parsed(
                        SpecAst::Comparison {
                            operator: Box::new(SpecAst::Cop(toks[mid]->Cop_0)),
                            expression1: Box::new(expr1),
                            expression2: Box::new(expr2),
                        },
                        end,
                    ),
                    failure => failure,
                }
            } else {
                ParseOutcome::Failed("Expected COP after Expression."@)
            }
        },
        failure => failure,
    }
}

/// `<term> [ <eop> <expression> ]`: additive chains, right-associated.
pub open spec fn spec_parse_expression(toks: Seq<SpecToken>, pos: int) -> ParseOutcome
    decreases toks.len() - pos, 2int,
{
    match spec_parse_term(toks, pos) {
        ParseOutcome::Parsed(term1, mid) => {
            if mid < toks.len() && pos <= mid && toks[mid] is Eop {
                match spec_parse_expression(toks, mid + 1) {
                    ParseOutcome::Parsed(term2, end) => ParseOutcome::Parsed(
                        SpecAst::Expression {
                            operator: Box::new(SpecAst::Op(toks[mid]->Eop_0)),
                            expression1: Box::new(term1),
                            expression2: Box::new(term2),
                        },
                        end,
                    ),
                    failure => failure,
                }
            } else {
                ParseOutcome::Parsed(term1, mid)
            }
        },
        failure => failure,
    }
}

/// `<factor> [ <top> <term> ]`: multiplicative chains, right-associated.
pub open spec fn spec_parse_term(toks: Seq<SpecToken>, pos: int) -> ParseOutcome
    decreases toks.len() - pos, 1int,
{
    match spec_parse_factor(toks, pos) {
        ParseOutcome::Parsed(factor1, mid) => {
            if mid < toks.len() && pos <= mid && toks[mid] is Top {
                match spec_parse_term(toks, mid + 1) {
                    ParseOutcome::Parsed(factor2, end) => ParseOutcome::Parsed(
                        SpecAst::Expression {
                            operator: Box::new(SpecAst::Op(toks[mid]->Top_0)),
                            expression1: Box::new(factor1),
                            expression2: Box::new(factor2),
                        },
                        end,
                    ),
                    failure => failure,
                }
            } else {
                ParseOutcome::Parsed(factor1, mid)
            }
        },
        failure => failure,
    }
}

/// A leaf of the expression grammar: an integer literal, an identifier, or
/// a parenthesized sub-expression.
pub open spec fn spec_parse_factor(toks: Seq<SpecToken>, pos: int) -> ParseOutcome
    decreases toks.len() - pos, 0int,
{
    if pos < toks.len() {
        match toks[pos] {
            SpecToken::Integer(i) => ParseOutcome::Parsed(SpecAst::Integer(i), pos + 1),
            SpecToken::Id(name) => ParseOutcome::Parsed(SpecAst::Id(name), pos + 1),
            SpecToken::Lparen => match spec_parse_expression(toks, pos + 1) {
                ParseOutcome::Parsed(expr, mid) => {
                    if mid < toks.len() && pos <= mid && toks[mid] is Rparen {
                        ParseOutcome::Parsed(expr, mid + 1)
                    } else {
                        ParseOutcome::Failed("Expected )."@)
                    }
                },
                failure => failure,
            },
            _ => ParseOutcome::Failed("Expected ID, Integer, or Expression."@),
        }
    } else {
        ParseOutcome::Failed("Expected ID, Integer, or Expression."@)
    }
}

} // verus!
