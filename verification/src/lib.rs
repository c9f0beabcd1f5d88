//! A scanner and a recursive-descent parser for a small statement and
//! expression language. Source text goes in, a syntax tree comes out; every
//! failure is a value of [`ParseError`].

pub mod expressions;
pub mod grammar;
pub mod laws;
pub mod nodes;
pub mod parser;
pub mod statements;
pub mod tokenizer;

pub use nodes::{
    AssignmentExpression, BinaryExpression, BlockStatement, BooleanLiteral, Expression,
    ExpressionStatement, Identifier, IfStatement, LeftHandSideExpression, Literal,
    LogicalExpression, NullLiteral, NumericLiteral, ParseError, Program, Statement,
    StringLiteral, Test, Token, TokenKind, VariableDeclaration, VariableInitializer,
    VariableStatement,
};
pub use parser::Parser;
pub use tokenizer::Tokenizer;

use vstd::prelude::*;

verus! {

/// A parser that has read nothing yet.
pub fn init() -> (parser: Parser)
    ensures
        parser.string@ == Seq::<char>::empty(),
        parser.lookahead.is_none(),
        parser.tokenizer.string@ == Seq::<char>::empty(),
        parser.tokenizer.cursor == 0,
{
    Parser::new()
}

} // verus!
