//! Scenario tests for the parser: grammar, associativity, precedence,
//! prefix consumption and every error message.

use toy_parser::Token;
use toy_parser::parse;
use toy_parser::parse_comparison;
use toy_parser::parse_expression;
use toy_parser::parse_factor;
use toy_parser::parse_program;
use toy_parser::parse_statement;
use toy_parser::parse_statement_sequence;

fn id(s: &str) -> Token {
    Token::Id(s.to_string())
}

fn lit(i: i32) -> Token {
    Token::Integer(i)
}

fn cop(s: &str) -> Token {
    Token::Cop(s.to_string())
}

fn eop(s: &str) -> Token {
    Token::Eop(s.to_string())
}

fn top(s: &str) -> Token {
    Token::Top(s.to_string())
}

/// `program p; begin x := 1 end end` renders to exactly `prog(p assign(x 1))`.
#[test]
fn program_with_block_renders() {
    let tokens = vec![
        Token::Program,
        id("p"),
        Token::Semicolon,
        Token::Begin,
        id("x"),
        Token::Assign,
        lit(1),
        Token::End,
        Token::End,
    ];
    let ast = parse(&tokens).expect("grammar-matching program must parse");
    assert_eq!(ast.to_string(), "prog(p assign(x 1))");
}

/// `a+b+c` is right-associated: `+(a +(b c))`, not `+(+(a b) c)`.
#[test]
fn additive_chain_right_associated() {
    let tokens = vec![id("a"), eop("+"), id("b"), eop("+"), id("c")];
    let (ast, end) = parse_expression(&tokens, 0).expect("expression must parse");
    assert_eq!(end, tokens.len());
    assert_eq!(ast.to_string(), "+(a +(b c))");
    assert_ne!(ast.to_string(), "+(+(a b) c)");
}

/// `a+b*c` keeps precedence: `+(a *(b c))`.
#[test]
fn multiplication_binds_tighter() {
    let tokens = vec![id("a"), eop("+"), id("b"), top("*"), id("c")];
    let (ast, end) = parse_expression(&tokens, 0).expect("expression must parse");
    assert_eq!(end, tokens.len());
    assert_eq!(ast.to_string(), "+(a *(b c))");
}

/// `x:=1;y:=2;z:=3` renders to `;(assign(x 1) ;(assign(y 2) assign(z 3)))`.
#[test]
fn statement_sequence_right_associated() {
    let tokens = vec![
        id("x"),
        Token::Assign,
        lit(1),
        Token::Semicolon,
        id("y"),
        Token::Assign,
        lit(2),
        Token::Semicolon,
        id("z"),
        Token::Assign,
        lit(3),
    ];
    let (ast, end) = parse_statement_sequence(&tokens, 0).expect("sequence must parse");
    assert_eq!(end, tokens.len());
    assert_eq!(ast.to_string(), ";(assign(x 1) ;(assign(y 2) assign(z 3)))");
}

/// A `begin` with no matching `end` fails with a message naming the
/// missing `end`.
#[test]
fn begin_without_end_fails() {
    let tokens = vec![Token::Begin, id("x"), Token::Assign, lit(1)];
    let err = parse_statement(&tokens, 0).expect_err("unclosed block must fail");
    assert_eq!(err, "Expected 'end'.");
    assert!(err.contains("end"));
}

/// A chained comparison such as `a == b == c` never parses to completion:
/// the comparison stops after one operator and the trailing operator trips
/// the statement that needed the comparison.
#[test]
fn chained_comparison_does_not_succeed() {
    let tokens = vec![
        Token::If,
        id("a"),
        cop("=="),
        id("b"),
        cop("=="),
        id("c"),
        Token::Then,
        id("x"),
        Token::Assign,
        lit(1),
        Token::Else,
        id("y"),
        Token::Assign,
        lit(2),
    ];
    let err = parse_statement(&tokens, 0).expect_err("chained comparison must not succeed");
    assert_eq!(err, "Expected 'then' after comparison.");
}

/// An expression not followed by a comparison operator fails with the
/// "Expected COP after Expression." message.
#[test]
fn missing_comparison_operator_reported() {
    let tokens = vec![id("a"), id("b")];
    let err = parse_comparison(&tokens, 0).expect_err("no comparison operator present");
    assert_eq!(err, "Expected COP after Expression.");

    // The same category surfaces when a statement needs the comparison.
    let tokens = vec![Token::While, id("a"), Token::Do, id("x"), Token::Assign, lit(1)];
    let err = parse_statement(&tokens, 0).expect_err("missing operator must fail");
    assert_eq!(err, "Expected COP after Expression.");
}

/// The full example program, one instance of every construct, parses to
/// completion with zero remaining tokens and no error.
#[test]
fn full_example_program_parses_to_completion() {
    let tokens = vec![
        Token::Program,
        id("all_tokens"),
        Token::Semicolon,
        Token::Begin,
        // x := 10 ;
        id("x"),
        Token::Assign,
        lit(10),
        Token::Semicolon,
        // if x > 5 then write x else write 0 ;
        Token::If,
        id("x"),
        cop(">"),
        lit(5),
        Token::Then,
        Token::Write,
        id("x"),
        Token::Else,
        Token::Write,
        lit(0),
        Token::Semicolon,
        // while x < 10 do x := x + 1 ;
        Token::While,
        id("x"),
        cop("<"),
        lit(10),
        Token::Do,
        id("x"),
        Token::Assign,
        id("x"),
        eop("+"),
        lit(1),
        Token::Semicolon,
        // read y ;
        Token::Read,
        id("y"),
        Token::Semicolon,
        // write (x * y)
        Token::Write,
        Token::Lparen,
        id("x"),
        top("*"),
        id("y"),
        Token::Rparen,
        Token::End,
        Token::End,
    ];
    let (ast, end) = parse_program(&tokens, 0).expect("the example program must parse");
    assert_eq!(end, tokens.len());
    assert_eq!(
        ast.to_string(),
        "prog(all_tokens ;(assign(x 10) ;(if(>(x 5) write(x) write(0)) \
         ;(while(<(x 10) assign(x +(x 1))) ;(read(y) write(*(x y)))))))"
    );
    let whole = parse(&tokens).expect("the top-level entry point agrees");
    assert_eq!(whole.to_string(), ast.to_string());
}

/// Success consumes exactly the matched prefix: the cursor stops on the
/// first token after the construct and the suffix stays available.
#[test]
fn success_returns_exact_suffix() {
    let tokens = vec![
        id("x"),
        Token::Assign,
        lit(1),
        Token::Semicolon,
        id("y"),
        Token::Assign,
        lit(2),
    ];
    let (ast, end) = parse_statement(&tokens, 0).expect("assignment must parse");
    assert_eq!(ast.to_string(), "assign(x 1)");
    assert_eq!(end, 3);
    assert_eq!(tokens[end], Token::Semicolon);

    // Parsing resumes on the suffix and consumes it to the end.
    let (rest, rest_end) = parse_statement(&tokens, end + 1).expect("suffix must parse");
    assert_eq!(rest.to_string(), "assign(y 2)");
    assert_eq!(rest_end, tokens.len());
}

/// `parse_program` does not require the remainder after the final `end` to
/// be empty: trailing tokens are simply left unconsumed.
#[test]
fn program_leaves_trailing_tokens() {
    let tokens = vec![
        Token::Program,
        id("p"),
        Token::Semicolon,
        id("x"),
        Token::Assign,
        lit(1),
        Token::End,
        id("extra"),
    ];
    let (ast, end) = parse_program(&tokens, 0).expect("program must parse");
    assert_eq!(ast.to_string(), "prog(p assign(x 1))");
    assert_eq!(end, tokens.len() - 1);
}

#[test]
fn malformed_program_opening_fails() {
    let err = parse(&vec![Token::Begin, id("x")]).expect_err("not a program");
    assert_eq!(err, "Expected syntax: program <id> ; <stat> end");
    let err = parse(&Vec::new()).expect_err("empty input is not a program");
    assert_eq!(err, "Expected syntax: program <id> ; <stat> end");
}

#[test]
fn program_missing_final_end_fails() {
    let tokens = vec![Token::Program, id("p"), Token::Semicolon, id("x"), Token::Assign, lit(1)];
    let err = parse_program(&tokens, 0).expect_err("unterminated program");
    assert_eq!(err, "Expected 'end' after statement.");
}

#[test]
fn if_missing_then_fails() {
    let tokens = vec![Token::If, id("a"), cop("<"), id("b"), Token::Write, id("x")];
    let err = parse_statement(&tokens, 0).expect_err("missing then");
    assert_eq!(err, "Expected 'then' after comparison.");
}

#[test]
fn if_missing_else_fails() {
    let tokens = vec![
        Token::If,
        id("a"),
        cop("<"),
        id("b"),
        Token::Then,
        id("x"),
        Token::Assign,
        lit(1),
    ];
    let err = parse_statement(&tokens, 0).expect_err("missing else");
    assert_eq!(err, "Expected 'else' after first statement.");
}

#[test]
fn while_missing_do_fails() {
    let tokens = vec![Token::While, id("a"), cop("<"), id("b"), id("x"), Token::Assign, lit(1)];
    let err = parse_statement(&tokens, 0).expect_err("missing do");
    assert_eq!(err, "Expected 'do' after comparison");
}

#[test]
fn invalid_statement_reported() {
    assert_eq!(parse_statement(&vec![Token::End], 0).expect_err("end alone"), "Invalid statement");
    assert_eq!(
        parse_statement(&vec![id("x"), lit(1)], 0).expect_err("id without assign"),
        "Invalid statement"
    );
    assert_eq!(parse_statement(&Vec::new(), 0).expect_err("empty input"), "Invalid statement");
    assert_eq!(
        parse_statement(&vec![Token::Read, Token::End], 0).expect_err("read needs an id"),
        "Invalid statement"
    );
}

#[test]
fn unclosed_parenthesis_fails() {
    let tokens = vec![Token::Lparen, id("a"), eop("+"), id("b")];
    let err = parse_factor(&tokens, 0).expect_err("missing closing parenthesis");
    assert_eq!(err, "Expected ).");
}

#[test]
fn factor_on_wrong_token_fails() {
    let err = parse_factor(&vec![Token::Semicolon], 0).expect_err("not a factor");
    assert_eq!(err, "Expected ID, Integer, or Expression.");
    let err = parse_factor(&Vec::new(), 0).expect_err("empty input has no factor");
    assert_eq!(err, "Expected ID, Integer, or Expression.");
}

/// A child's error propagates unchanged to the top.
#[test]
fn child_error_propagates_unchanged() {
    let tokens = vec![
        Token::Program,
        id("p"),
        Token::Semicolon,
        id("x"),
        Token::Assign,
        Token::Semicolon,
        Token::End,
    ];
    let err = parse(&tokens).expect_err("assignment lacks an expression");
    assert_eq!(err, "Expected ID, Integer, or Expression.");
}

/// `read <id>` and `write <expression>` parse on their own.
#[test]
fn read_and_write_parse() {
    let (ast, end) = parse_statement(&vec![Token::Read, id("y")], 0).expect("read must parse");
    assert_eq!(ast.to_string(), "read(y)");
    assert_eq!(end, 2);

    let (ast, end) = parse_statement(&vec![Token::Write, lit(7)], 0).expect("write must parse");
    assert_eq!(ast.to_string(), "write(7)");
    assert_eq!(end, 2);
}

/// A parenthesized group returns the inner expression unchanged.
#[test]
fn parentheses_group_without_a_node() {
    let tokens = vec![
        Token::Lparen,
        id("a"),
        eop("+"),
        id("b"),
        Token::Rparen,
        top("*"),
        id("c"),
    ];
    let (ast, end) = parse_expression(&tokens, 0).expect("grouped expression must parse");
    assert_eq!(end, tokens.len());
    assert_eq!(ast.to_string(), "*(+(a b) c)");
}
