//! What holds of every text: laws of the grammar, proved from its definition.

use crate::grammar::{
    after, assignment_expression, assignment_operator, chain, expression, expression_statement,
    is_assignment_operator, lexemes, operand, parse_text, peek, primary_expression, program,
    shift, statement, statement_list, statement_list_rest, Level, Lexeme,
};
use crate::nodes::{ExpressionModel, ParseError, StatementModel, TokenKind};
use crate::tokenizer::scan;
use vstd::prelude::*;

verus! {

/// With nothing left to read, every level of binary operators stops for
/// want of an identifier.
#[verifier::spinoff_prover]
pub proof fn lemma_chain_at_end(level: Level, input: Seq<Lexeme>)
    requires
        input.len() == 0,
    ensures
        chain(level, input) == Err::<(ExpressionModel, nat), ParseError>(
            ParseError::UnexpectedEndOfInput { expected: TokenKind::Identifier },
        ),
    decreases crate::grammar::level_height(level),
{
    match level {
        Level::LogicalOr => lemma_chain_at_end(Level::LogicalAnd, input),
        Level::LogicalAnd => lemma_chain_at_end(Level::Equality, input),
        Level::Equality => lemma_chain_at_end(Level::Relational, input),
        Level::Relational => lemma_chain_at_end(Level::Additive, input),
        Level::Additive => lemma_chain_at_end(Level::Multiplicative, input),
        Level::Multiplicative => {
            assert(primary_expression(input) == Err::<(ExpressionModel, nat), ParseError>(
                ParseError::UnexpectedEndOfInput { expected: TokenKind::Identifier },
            ));
        },
    }
    assert(operand(level, input) == Err::<(ExpressionModel, nat), ParseError>(
        ParseError::UnexpectedEndOfInput { expected: TokenKind::Identifier },
    ));
}

/// A text that holds no token (nothing at all, or whitespace and comments
/// only) is no program: a program needs a statement, and the parser fails at
/// the end of the input.
#[verifier::spinoff_prover]
pub proof fn law_blank_text_is_rejected(text: Seq<char>)
    requires
        lexemes(text, 0).len() == 0,
    ensures
        parse_text(text) == Err::<crate::nodes::ProgramModel, ParseError>(
            ParseError::UnexpectedEndOfInput { expected: TokenKind::Identifier },
        ),
{
    let input = lexemes(text, 0);
    reveal(program);
    reveal(statement_list);
    reveal(statement);
    reveal(expression_statement);
    lemma_chain_at_end(Level::LogicalOr, input);
    assert(peek(input).is_none());
    assert(assignment_expression(input) == Err::<(ExpressionModel, nat), ParseError>(
        ParseError::UnexpectedEndOfInput { expected: TokenKind::Identifier },
    ));
    assert(expression(input) == assignment_expression(input));
}

/// The empty text is rejected.
#[verifier::spinoff_prover]
pub proof fn law_empty_text_is_rejected(text: Seq<char>)
    requires
        text.len() == 0,
    ensures
        parse_text(text) == Err::<crate::nodes::ProgramModel, ParseError>(
            ParseError::UnexpectedEndOfInput { expected: TokenKind::Identifier },
        ),
{
    assert(scan(text, 0) == crate::tokenizer::Scan::End);
    assert(lexemes(text, 0).len() == 0);
    law_blank_text_is_rejected(text);
}

/// Every statement consumes at least one token.
#[verifier::spinoff_prover]
pub proof fn law_statement_consumes_a_token(input: Seq<Lexeme>)
    ensures
        match statement(input) {
            Ok((_, used)) => used > 0,
            Err(_) => true,
        },
{
    reveal(statement);
    reveal(crate::grammar::empty_statement);
    reveal(crate::grammar::block_statement);
    reveal(crate::grammar::variable_statement);
    reveal(crate::grammar::if_statement);
    reveal(expression_statement);
}

/// A statement list that parses ends where the input ends or where a token
/// of the kind `stop` is next.
#[verifier::spinoff_prover]
pub proof fn law_list_ends_at_stop(
    input: Seq<Lexeme>,
    stop: Option<TokenKind>,
    done: Seq<StatementModel>,
)
    ensures
        match statement_list_rest(input, stop, done) {
            Ok((_, used)) => peek(after(input, used)).is_none() || peek(after(input, used))
                == stop,
            Err(_) => true,
        },
    decreases input.len(),
{
    reveal(statement_list_rest);
    if peek(input).is_some() && peek(input) != stop {
        law_statement_consumes_a_token(input);
        match statement(input) {
            Ok((next, used)) => {
                let tail = after(input, used);
                let inner = statement_list_rest(tail, stop, done.push(next));
                law_list_ends_at_stop(tail, stop, done.push(next));
                assert(statement_list_rest(input, stop, done) == shift(inner, used));
                match inner {
                    Ok((_, more)) => {
                        crate::grammar::lemma_after_after(input, used, more);
                    },
                    Err(_) => {},
                }
            },
            Err(_) => {},
        }
    } else {
        assert(after(input, 0) =~= input);
    }
}

/// A program that parses has consumed every token of its text.
#[verifier::spinoff_prover]
pub proof fn law_program_reads_all(input: Seq<Lexeme>)
    ensures
        match program(input) {
            Ok((_, used)) => peek(after(input, used)).is_none(),
            Err(_) => true,
        },
{
    reveal(program);
    reveal(statement_list);
    match statement(input) {
        Ok((first, used)) => {
            let inner = statement_list_rest(after(input, used), None, seq![first]);
            law_list_ends_at_stop(after(input, used), None, seq![first]);
            assert(statement_list(input, None) == shift(inner, used));
            match inner {
                Ok((_, more)) => {
                    crate::grammar::lemma_after_after(input, used, more);
                },
                Err(_) => {},
            }
        },
        Err(_) => {},
    }
}

/// A statement list drops none of the statements that it has read.
#[verifier::spinoff_prover]
pub proof fn lemma_list_keeps_statements(
    input: Seq<Lexeme>,
    stop: Option<TokenKind>,
    done: Seq<StatementModel>,
)
    ensures
        match statement_list_rest(input, stop, done) {
            Ok((list, _)) => list.len() >= done.len(),
            Err(_) => true,
        },
    decreases input.len(),
{
    reveal(statement_list_rest);
    if peek(input).is_some() && peek(input) != stop {
        match statement(input) {
            Ok((next, used)) => {
                if used > 0 {
                    let longer = done.push(next);
                    lemma_list_keeps_statements(after(input, used), stop, longer);
                    assert(longer.len() == done.len() + 1);
                    assert(statement_list_rest(input, stop, done) == shift(
                        statement_list_rest(after(input, used), stop, longer),
                        used,
                    ));
                } else {
                    assert(done.push(next).len() == done.len() + 1);
                }
            },
            Err(_) => {},
        }
    }
}

/// No text parses to a program without statements.
#[verifier::spinoff_prover]
pub proof fn law_program_holds_a_statement(text: Seq<char>)
    ensures
        match parse_text(text) {
            Ok(tree) => tree.body.len() > 0,
            Err(_) => true,
        },
{
    let input = lexemes(text, 0);
    reveal(program);
    reveal(statement_list);
    match statement(input) {
        Ok((first, used)) => {
            lemma_list_keeps_statements(after(input, used), None, seq![first]);
            assert(seq![first].len() == 1);
            assert(statement_list(input, None) == shift(
                statement_list_rest(after(input, used), None, seq![first]),
                used,
            ));
        },
        Err(_) => {},
    }
}

/// An assignment operator behind a left side that is no bare identifier
/// makes the expression fail: with `InvalidAssignmentTarget` once the
/// operator is consumed, and never with a tree.
#[verifier::spinoff_prover]
pub proof fn law_assignment_needs_identifier(input: Seq<Lexeme>)
    requires
        chain(Level::LogicalOr, input).is_ok(),
        !(chain(Level::LogicalOr, input).unwrap().0 is Identifier),
        is_assignment_operator(peek(after(input, chain(Level::LogicalOr, input).unwrap().1))),
    ensures
        assignment_expression(input).is_err(),
        assignment_operator(after(input, chain(Level::LogicalOr, input).unwrap().1)).is_ok()
            ==> assignment_expression(input) == Err::<(ExpressionModel, nat), ParseError>(
            ParseError::InvalidAssignmentTarget,
        ),
{
}

/// Parsing is a function of the text alone: the same text gives the same
/// tree, or the same failure, each time it is parsed.
pub proof fn law_parse_is_deterministic(first: Seq<char>, second: Seq<char>)
    requires
        first == second,
    ensures
        parse_text(first) == parse_text(second),
{
}

} // verus!
