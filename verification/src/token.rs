//! Lexical tokens of the toy language, and their mathematical view.

use vstd::prelude::*;

verus! {

/// An immutable tagged lexical unit.  Tokens arrive fully formed (there is
/// no lexer here) and are consumed strictly left to right by the parser.
#[derive(Clone, PartialEq, Debug)]
pub enum Token {
    /// The keyword `program`.
    Program,
    /// The keyword `begin`.
    Begin,
    /// The keyword `end`.
    End,
    /// The statement separator `;`.
    Semicolon,
    /// An opening parenthesis `(`.
    Lparen,
    /// A closing parenthesis `)`.
    Rparen,
    /// The assignment sign `:=`.
    Assign,
    /// A comparison operator: one of `==`, `!=`, `<`, `>`, `<=`, `>=`.
    Cop(String),
    /// An additive operator: `+` or `-`.
    Eop(String),
    /// A multiplicative operator: `*` or `/`.
    Top(String),
    /// The keyword `if`.
    If,
    /// The keyword `then`.
    Then,
    /// The keyword `else`.
    Else,
    /// The keyword `while`.
    While,
    /// The keyword `do`.
    Do,
    /// The keyword `read`.
    Read,
    /// The keyword `write`.
    Write,
    /// An identifier.
    Id(String),
    /// An integer literal.
    Integer(i32),
}

/// The mathematical value of a [`Token`]: operator and identifier texts
/// become `Seq<char>`, integer literals become `int`.
pub ghost enum SpecToken {
    Program,
    Begin,
    End,
    Semicolon,
    Lparen,
    Rparen,
    Assign,
    Cop(Seq<char>),
    Eop(Seq<char>),
    Top(Seq<char>),
    If,
    Then,
    Else,
    While,
    Do,
    Read,
    Write,
    Id(Seq<char>),
    Integer(int),
}

impl View for Token {
    type V = SpecToken;

    open spec fn view(&self) -> SpecToken {
        match self {
            Token::Program => SpecToken::Program,
            Token::Begin => SpecToken::Begin,
            Token::End => SpecToken::End,
            Token::Semicolon => SpecToken::Semicolon,
            Token::Lparen => SpecToken::Lparen,
            Token::Rparen => SpecToken::Rparen,
            Token::Assign => SpecToken::Assign,
            Token::Cop(s) => SpecToken::Cop(s@),
            Token::Eop(s) => SpecToken::Eop(s@),
            Token::Top(s) => SpecToken::Top(s@),
            Token::If => SpecToken::If,
            Token::Then => SpecToken::Then,
            Token::Else => SpecToken::Else,
            Token::While => SpecToken::While,
            Token::Do => SpecToken::Do,
            Token::Read => SpecToken::Read,
            Token::Write => SpecToken::Write,
            Token::Id(s) => SpecToken::Id(s@),
            Token::Integer(i) => SpecToken::Integer(*i as int),
        }
    }
}

/// The views of a sequence of tokens, element by element.
pub open spec fn tokens_view(ts: Seq<Token>) -> Seq<SpecToken> {
    ts.map_values(|t: Token| t@)
}

} // verus!
