//! Tests of the tree-to-text rendering, including integer leaves and the
//! idempotence of rendering.

use toy_parser::AstNode;
use toy_parser::Token;
use toy_parser::parse_expression;
use toy_parser::parse_statement;

fn id(s: &str) -> Token {
    Token::Id(s.to_string())
}

fn lit(i: i32) -> Token {
    Token::Integer(i)
}

/// Rendering the same tree twice yields identical text.
#[test]
fn rendering_is_idempotent() {
    let tokens = vec![
        Token::If,
        id("a"),
        Token::Cop("<=".to_string()),
        lit(4),
        Token::Then,
        Token::Write,
        id("a"),
        Token::Else,
        Token::Read,
        id("b"),
    ];
    let (ast, _) = parse_statement(&tokens, 0).expect("statement must parse");
    let first = ast.to_string();
    let second = ast.to_string();
    assert_eq!(first, second);
    assert_eq!(first, "if(<=(a 4) write(a) read(b))");
}

#[test]
fn leaves_render_as_their_text() {
    assert_eq!(AstNode::Id("total".to_string()).to_string(), "total");
    assert_eq!(AstNode::Cop(">=".to_string()).to_string(), ">=");
    assert_eq!(AstNode::Op("/".to_string()).to_string(), "/");
    assert_eq!(AstNode::Integer(0).to_string(), "0");
    assert_eq!(AstNode::Integer(42).to_string(), "42");
}

#[test]
fn negative_and_extreme_integers_render() {
    assert_eq!(AstNode::Integer(-5).to_string(), "-5");
    assert_eq!(AstNode::Integer(i32::MAX).to_string(), "2147483647");
    assert_eq!(AstNode::Integer(i32::MIN).to_string(), "-2147483648");
    assert_eq!(AstNode::Integer(1000000).to_string(), "1000000");
}

#[test]
fn integer_leaf_renders_inside_a_tree() {
    let tokens = vec![lit(-12), Token::Eop("-".to_string()), lit(30)];
    let (ast, _) = parse_expression(&tokens, 0).expect("expression must parse");
    assert_eq!(ast.to_string(), "-(-12 30)");
}

/// Operator nodes render as `op(left right)` with the operator text first.
#[test]
fn comparison_renders_operator_first() {
    let ast = AstNode::Comparison {
        operator: Box::new(AstNode::Cop("!=".to_string())),
        expression1: Box::new(AstNode::Id("a".to_string())),
        expression2: Box::new(AstNode::Integer(3)),
    };
    assert_eq!(ast.to_string(), "!=(a 3)");
}
