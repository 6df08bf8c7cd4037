//! Laws of the grammar and of rendering, proved once and for all.

use crate::ast::AstNode;
use crate::grammar::ParseOutcome;
use crate::grammar::spec_parse_comparison;
use crate::grammar::spec_parse_expression;
use crate::grammar::spec_parse_factor;
use crate::grammar::spec_parse_program;
use crate::grammar::spec_parse_statement;
use crate::grammar::spec_parse_statement_sequence;
use crate::grammar::spec_parse_term;
use crate::render::spec_render;
use crate::token::SpecToken;
use vstd::prelude::*;

verus! {

/// Prefix consumption for a whole program: whenever the grammar matches,
/// the parse succeeds at a position strictly past `pos` and no further than
/// the end of the input, so the remainder is exactly the suffix after the
/// matched construct.
pub proof fn lemma_program_consumes_prefix(toks: Seq<SpecToken>, pos: int)
    ensures
        spec_parse_program(toks, pos) matches ParseOutcome::Parsed(_, end) ==> pos < end
            <= toks.len(),
    decreases toks.len() - pos, 6int,
{
    if pos + 2 < toks.len() && toks[pos] is Program && toks[pos + 1] is Id && toks[pos
        + 2] is Semicolon {
        lemma_statement_consumes_prefix(toks, pos + 3);
    }
}

/// Prefix consumption for a statement sequence.
pub proof fn lemma_statement_sequence_consumes_prefix(toks: Seq<SpecToken>, pos: int)
    ensures
        spec_parse_statement_sequence(toks, pos) matches ParseOutcome::Parsed(_, end) ==> pos < end
            <= toks.len(),
    decreases toks.len() - pos, 5int,
{
    lemma_statement_consumes_prefix(toks, pos);
    match spec_parse_statement(toks, pos) {
        ParseOutcome::Parsed(_, mid) => {
            if mid < toks.len() && pos <= mid && toks[mid] is Semicolon {
                lemma_statement_sequence_consumes_prefix(toks, mid + 1);
            }
        },
        _ => {},
    }
}

/// Prefix consumption for a single statement.
pub proof fn lemma_statement_consumes_prefix(toks: Seq<SpecToken>, pos: int)
    ensures
        spec_parse_statement(toks, pos) matches ParseOutcome::Parsed(_, end) ==> pos < end
            <= toks.len(),
    decreases toks.len() - pos, 4int,
{
    if pos < toks.len() {
        match toks[pos] {
            SpecToken::Begin => {
                lemma_statement_sequence_consumes_prefix(toks, pos + 1);
            },
            SpecToken::Id(_) => {
                if pos + 1 < toks.len() && toks[pos + 1] is Assign {
                    lemma_expression_consumes_prefix(toks, pos + 2);
                }
            },
            SpecToken::If => {
                lemma_comparison_consumes_prefix(toks, pos + 1);
                match spec_parse_comparison(toks, pos + 1) {
                    ParseOutcome::Parsed(_, m1) => {
                        if m1 < toks.len() && pos <= m1 && toks[m1] is Then {
                            lemma_statement_consumes_prefix(toks, m1 + 1);
                            match spec_parse_statement(toks, m1 + 1) {
                                ParseOutcome::Parsed(_, m2) => {
                                    if m2 < toks.len() && pos <= m2 && toks[m2] is Else {
                                        lemma_statement_consumes_prefix(toks, m2 + 1);
                                    }
                                },
                                _ => {},
                            }
                        }
                    },
                    _ => {},
                }
            },
            SpecToken::While => {
                lemma_comparison_consumes_prefix(toks, pos + 1);
                match spec_parse_comparison(toks, pos + 1) {
                    ParseOutcome::Parsed(_, mid) => {
                        if mid < toks.len() && pos <= mid && toks[mid] is Do {
                            lemma_statement_consumes_prefix(toks, mid + 1);
                        }
                    },
                    _ => {},
                }
            },
            SpecToken::Write => {
                lemma_expression_consumes_prefix(toks, pos + 1);
            },
            _ => {},
        }
    }
}

/// Prefix consumption for a comparison.
pub proof fn lemma_comparison_consumes_prefix(toks: Seq<SpecToken>, pos: int)
    ensures
        spec_parse_comparison(toks, pos) matches ParseOutcome::Parsed(_, end) ==> pos < end
            <= toks.len(),
    decreases toks.len() - pos, 3int,
{
    lemma_expression_consumes_prefix(toks, pos);
    match spec_parse_expression(toks, pos) {
        ParseOutcome::Parsed(_, mid) => {
            if mid < toks.len() && pos <= mid && toks[mid] is Cop {
                lemma_expression_consumes_prefix(toks, mid + 1);
            }
        },
        _ => {},
    }
}

/// Prefix consumption for an expression.
pub proof fn lemma_expression_consumes_prefix(toks: Seq<SpecToken>, pos: int)
    ensures
        spec_parse_expression(toks, pos) matches ParseOutcome::Parsed(_, end) ==> pos < end
            <= toks.len(),
    decreases toks.len() - pos, 2int,
{
    lemma_term_consumes_prefix(toks, pos);
    match spec_parse_term(toks, pos) {
        ParseOutcome::Parsed(_, mid) => {
            if mid < toks.len() && pos <= mid && toks[mid] is Eop {
                lemma_expression_consumes_prefix(toks, mid + 1);
            }
        },
        _ => {},
    }
}

/// Prefix consumption for a term.
pub proof fn lemma_term_consumes_prefix(toks: Seq<SpecToken>, pos: int)
    ensures
        spec_parse_term(toks, pos) matches ParseOutcome::Parsed(_, end) ==> pos < end <= toks.len(),
    decreases toks.len() - pos, 1int,
{
    lemma_factor_consumes_prefix(toks, pos);
    match spec_parse_factor(toks, pos) {
        ParseOutcome::Parsed(_, mid) => {
            if mid < toks.len() && pos <= mid && toks[mid] is Top {
                lemma_term_consumes_prefix(toks, mid + 1);
            }
        },
        _ => {},
    }
}

/// Prefix consumption for a factor.
pub proof fn lemma_factor_consumes_prefix(toks: Seq<SpecToken>, pos: int)
    ensures
        spec_parse_factor(toks, pos) matches ParseOutcome::Parsed(_, end) ==> pos < end
            <= toks.len(),
    decreases toks.len() - pos, 0int,
{
    if pos < toks.len() && toks[pos] is Lparen {
        lemma_expression_consumes_prefix(toks, pos + 1);
    }
}

/// Rendering is a pure function of the tree: any two nodes with the same
/// mathematical value render to the same text.  In particular, rendering
/// the same tree twice yields identical text.
pub proof fn lemma_render_deterministic(a: &AstNode, b: &AstNode)
    requires
        a@ == b@,
    ensures
        spec_render(a@) == spec_render(b@),
{
}

} // verus!
