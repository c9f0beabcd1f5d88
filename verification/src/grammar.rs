//! The grammar, as functions on the sequence of lexemes that the scanner
//! yields. A rule takes the lexemes that are still to be read and gives the
//! tree it builds together with the number of tokens it consumed, or the
//! failure it stops on.
//!
//! ```text
//! Program                 := StatementList
//! Statement               := ";" | Block | Variable | If | Expression ";"
//! Block                   := "{" StatementList? "}"
//! Variable                := "let" Declaration ("," Declaration)* ";"
//! Declaration             := IDENTIFIER ("=" Assignment)?
//! If                      := "if" "(" Expression ")" Statement ("else" Statement)?
//! Expression              := Assignment
//! Assignment              := LogicalOr (ASSIGN Assignment)?
//! LogicalOr .. Multiplicative := Operand (OPERATOR Operand)*
//! Primary                 := Literal | "(" Expression ")" | IDENTIFIER
//! ```

use crate::nodes::{
    DeclarationModel, ExpressionModel, LiteralModel, ParseError, ProgramModel, StatementModel,
    TokenKind, TokenModel,
};
use crate::tokenizer::{lemma_scan_bounds, scan, Scan};
use vstd::prelude::*;

verus! {

/// What the parser meets in the text: a token, or the place where the
/// scanner fails.
pub enum Lexeme {
    Token(TokenModel),
    Bad(ParseError),
}

/// The lexemes of `text` from character `cursor` on, in order. The sequence
/// ends with the first failure of the scanner, if there is one.
pub open spec fn lexemes(text: Seq<char>, cursor: nat) -> Seq<Lexeme>
    decreases text.len() - cursor,
{
    match scan(text, cursor) {
        Scan::End => Seq::empty(),
        Scan::Unexpected { character, position } => seq![
            Lexeme::Bad(ParseError::UnexpectedCharacter { character, position: position as usize }),
        ],
        Scan::Found { token, start: _, cursor: next } => {
            proof {
                lemma_scan_bounds(text, cursor);
            }
            seq![Lexeme::Token(token)] + lexemes(text, next)
        },
    }
}

/// What is left of `input` behind its first `count` lexemes.
pub open spec fn after(input: Seq<Lexeme>, count: nat) -> Seq<Lexeme> {
    if count <= input.len() {
        input.skip(count as int)
    } else {
        Seq::empty()
    }
}

/// The kind of the lookahead token, if a token is next.
pub open spec fn peek(input: Seq<Lexeme>) -> Option<TokenKind> {
    if input.len() > 0 {
        match input[0] {
            Lexeme::Token(token) => Some(token.kind),
            Lexeme::Bad(_) => None,
        }
    } else {
        None
    }
}

/// A result whose count of consumed tokens is raised by `count`.
pub open spec fn shift<T>(result: Result<(T, nat), ParseError>, count: nat) -> Result<
    (T, nat),
    ParseError,
> {
    match result {
        Ok((tree, used)) => Ok((tree, used + count)),
        Err(error) => Err(error),
    }
}

/// Consuming one token of kind `expected`. The token behind it is fetched at
/// once, so a failure of the scanner there is met here.
pub open spec fn eat(input: Seq<Lexeme>, expected: TokenKind) -> Result<TokenModel, ParseError> {
    if input.len() == 0 {
        Err(ParseError::UnexpectedEndOfInput { expected })
    } else {
        match input[0] {
            Lexeme::Bad(error) => Err(error),
            Lexeme::Token(token) => if token.kind != expected {
                Err(ParseError::UnexpectedToken { found: token.kind, expected })
            } else if input.len() > 1 && input[1] is Bad {
                Err(input[1]->Bad_0)
            } else {
                Ok(token)
            },
        }
    }
}

/// The number that a string of decimal digits writes.
pub open spec fn digits_value(digits: Seq<char>) -> int
    decreases digits.len(),
{
    if digits.len() == 0 {
        0
    } else {
        digits_value(digits.drop_last()) * 10 + (digits.last() as int - '0' as int)
    }
}

/// Whether every character is one of `0` to `9`.
pub open spec fn all_digits(text: Seq<char>) -> bool {
    forall|i: int| 0 <= i < text.len() ==> '0' <= #[trigger] text[i] <= '9'
}

/// The value of a number token: its text read as a decimal number, where it
/// is one and fits in 64 signed bits.
pub open spec fn number_value(text: Seq<char>) -> Option<int> {
    if text.len() > 0 && all_digits(text) && digits_value(text) <= i64::MAX {
        Some(digits_value(text))
    } else {
        None
    }
}

/// Whether a token of this kind starts a literal.
pub open spec fn is_literal(kind: Option<TokenKind>) -> bool {
    kind == Some(TokenKind::Number) || kind == Some(TokenKind::String) || kind == Some(
        TokenKind::True,
    ) || kind == Some(TokenKind::False) || kind == Some(TokenKind::Null)
}

/// Whether a token of this kind is an assignment operator.
pub open spec fn is_assignment_operator(kind: Option<TokenKind>) -> bool {
    kind == Some(TokenKind::SimpleAssign) || kind == Some(TokenKind::ComplexAssign)
}

/// `NUMBER`
pub open spec fn numeric_literal(input: Seq<Lexeme>) -> Result<(LiteralModel, nat), ParseError> {
    match eat(input, TokenKind::Number) {
        Err(error) => Err(error),
        Ok(token) => match number_value(token.text) {
            Some(value) => Ok((LiteralModel::Numeric(value), 1)),
            None => Err(ParseError::InvalidNumber),
        },
    }
}

/// `STRING`
pub open spec fn string_literal(input: Seq<Lexeme>) -> Result<(LiteralModel, nat), ParseError> {
    match eat(input, TokenKind::String) {
        Err(error) => Err(error),
        Ok(token) => Ok((LiteralModel::Text(token.text), 1)),
    }
}

/// `"true"` where `value` holds, `"false"` where it does not.
pub open spec fn boolean_literal(input: Seq<Lexeme>, value: bool) -> Result<
    (LiteralModel, nat),
    ParseError,
> {
    match eat(
        input,
        if value {
            TokenKind::True
        } else {
            TokenKind::False
        },
    ) {
        Err(error) => Err(error),
        Ok(_) => Ok((LiteralModel::Boolean(value), 1)),
    }
}

/// `"null"`
pub open spec fn null_literal(input: Seq<Lexeme>) -> Result<(LiteralModel, nat), ParseError> {
    match eat(input, TokenKind::Null) {
        Err(error) => Err(error),
        Ok(_) => Ok((LiteralModel::Null, 1)),
    }
}

/// `Literal := NUMBER | STRING | "true" | "false" | "null"`
pub open spec fn literal(input: Seq<Lexeme>) -> Result<(LiteralModel, nat), ParseError> {
    match peek(input) {
        Some(TokenKind::Number) => numeric_literal(input),
        Some(TokenKind::String) => string_literal(input),
        Some(TokenKind::True) => boolean_literal(input, true),
        Some(TokenKind::False) => boolean_literal(input, false),
        Some(TokenKind::Null) => null_literal(input),
        Some(kind) => Err(ParseError::UnsupportedTokenType { kind }),
        None => numeric_literal(input),
    }
}

/// `IDENTIFIER`
pub open spec fn identifier(input: Seq<Lexeme>) -> Result<(Seq<char>, nat), ParseError> {
    match eat(input, TokenKind::Identifier) {
        Err(error) => Err(error),
        Ok(token) => Ok((token.text, 1)),
    }
}

/// `LeftHandSide := IDENTIFIER`
pub open spec fn left_hand_side_expression(input: Seq<Lexeme>) -> Result<
    (ExpressionModel, nat),
    ParseError,
> {
    match identifier(input) {
        Err(error) => Err(error),
        Ok((name, used)) => Ok((ExpressionModel::Identifier(name), used)),
    }
}

/// `ASSIGN := "=" | "+=" | "-=" | "*=" | "/="`
pub open spec fn assignment_operator(input: Seq<Lexeme>) -> Result<TokenModel, ParseError> {
    if peek(input) == Some(TokenKind::SimpleAssign) {
        eat(input, TokenKind::SimpleAssign)
    } else {
        eat(input, TokenKind::ComplexAssign)
    }
}

/// The levels of binary operators, from the loosest to the tightest.
#[derive(Clone, Copy, Debug, PartialEq, Eq)]
pub enum Level {
    LogicalOr,
    LogicalAnd,
    Equality,
    Relational,
    Additive,
    Multiplicative,
}

/// The kind of the operator tokens of a level.
pub open spec fn level_operator(level: Level) -> TokenKind {
    match level {
        Level::LogicalOr => TokenKind::LogicalOr,
        Level::LogicalAnd => TokenKind::LogicalAnd,
        Level::Equality => TokenKind::EqualityOperator,
        Level::Relational => TokenKind::RelationalOperator,
        Level::Additive => TokenKind::AdditiveOperator,
        Level::Multiplicative => TokenKind::MultiplicativeOperator,
    }
}

/// How many levels bind at least as tightly as this one.
pub open spec fn level_height(level: Level) -> nat {
    match level {
        Level::LogicalOr => 6,
        Level::LogicalAnd => 5,
        Level::Equality => 4,
        Level::Relational => 3,
        Level::Additive => 2,
        Level::Multiplicative => 1,
    }
}

/// The node that an operator of `level` makes of its two operands.
pub open spec fn combine(
    level: Level,
    operator: Seq<char>,
    left: ExpressionModel,
    right: ExpressionModel,
) -> ExpressionModel {
    match level {
        Level::LogicalOr | Level::LogicalAnd => ExpressionModel::Logical {
            operator,
            left: Box::new(left),
            right: Box::new(right),
        },
        _ => ExpressionModel::Binary { operator, left: Box::new(left), right: Box::new(right) },
    }
}

/// `Expression := Assignment`
pub open spec fn expression(input: Seq<Lexeme>) -> Result<(ExpressionModel, nat), ParseError>
    decreases input.len(), 15nat,
{
    assignment_expression(input)
}

/// `Assignment := LogicalOr (ASSIGN Assignment)?`, where the left side of
/// an operator must be a bare identifier. The operator is consumed before
/// the left side is judged.
pub open spec fn assignment_expression(input: Seq<Lexeme>) -> Result<
    (ExpressionModel, nat),
    ParseError,
>
    decreases input.len(), 14nat,
{
    match chain(Level::LogicalOr, input) {
        Err(error) => Err(error),
        Ok((left, used)) => {
            let tail = after(input, used);
            if !is_assignment_operator(peek(tail)) {
                Ok((left, used))
            } else {
                match assignment_operator(tail) {
                    Err(error) => Err(error),
                    Ok(operator) => match left {
                        ExpressionModel::Identifier(target) => match assignment_expression(
                            after(input, used + 1),
                        ) {
                            Err(error) => Err(error),
                            Ok((value, more)) => Ok(
                                (
                                    ExpressionModel::Assignment {
                                        operator: operator.text,
                                        target,
                                        value: Box::new(value),
                                    },
                                    used + 1 + more,
                                ),
                            ),
                        },
                        _ => Err(ParseError::InvalidAssignmentTarget),
                    },
                }
            }
        },
    }
}

/// An operand of `level`: a chain of the next tighter level, or a primary
/// expression under the tightest.
pub open spec fn operand(level: Level, input: Seq<Lexeme>) -> Result<
    (ExpressionModel, nat),
    ParseError,
>
    decreases input.len(), 2 * level_height(level),
{
    match level {
        Level::LogicalOr => chain(Level::LogicalAnd, input),
        Level::LogicalAnd => chain(Level::Equality, input),
        Level::Equality => chain(Level::Relational, input),
        Level::Relational => chain(Level::Additive, input),
        Level::Additive => chain(Level::Multiplicative, input),
        Level::Multiplicative => primary_expression(input),
    }
}

/// `Operand (OPERATOR Operand)*` for the operators of `level`, grouped to
/// the left.
pub open spec fn chain(level: Level, input: Seq<Lexeme>) -> Result<
    (ExpressionModel, nat),
    ParseError,
>
    decreases input.len(), 2 * level_height(level) + 1,
{
    match operand(level, input) {
        Err(error) => Err(error),
        Ok((left, used)) => shift(chain_rest(level, after(input, used), left), used),
    }
}

/// `(OPERATOR Operand)*` behind the operand `left`: each operator makes of
/// what stands before it and of its right operand the left operand of the next.
pub open spec fn chain_rest(level: Level, input: Seq<Lexeme>, left: ExpressionModel) -> Result<
    (ExpressionModel, nat),
    ParseError,
>
    decreases input.len(), 2 * level_height(level),
{
    if peek(input) == Some(level_operator(level)) {
        match eat(input, level_operator(level)) {
            Err(error) => Err(error),
            Ok(operator) => match operand(level, after(input, 1)) {
                Err(error) => Err(error),
                Ok((right, used)) => shift(
                    chain_rest(
                        level,
                        after(input, 1 + used),
                        combine(level, operator.text, left, right),
                    ),
                    1 + used,
                ),
            },
        }
    } else {
        Ok((left, 0))
    }
}

/// `Primary := Literal | "(" Expression ")" | LeftHandSide`
pub open spec fn primary_expression(input: Seq<Lexeme>) -> Result<
    (ExpressionModel, nat),
    ParseError,
>
    decreases input.len(), 1nat,
{
    if is_literal(peek(input)) {
        match literal(input) {
            Err(error) => Err(error),
            Ok((value, used)) => Ok((ExpressionModel::Literal(value), used)),
        }
    } else if peek(input) == Some(TokenKind::OpenParen) {
        parenthesized_expression(input)
    } else {
        left_hand_side_expression(input)
    }
}

/// `"(" Expression ")"`
pub open spec fn parenthesized_expression(input: Seq<Lexeme>) -> Result<
    (ExpressionModel, nat),
    ParseError,
>
    decreases input.len(), 0nat,
{
    match eat(input, TokenKind::OpenParen) {
        Err(error) => Err(error),
        Ok(_) => match expression(after(input, 1)) {
            Err(error) => Err(error),
            Ok((inner, used)) => match eat(after(input, 1 + used), TokenKind::CloseParen) {
                Err(error) => Err(error),
                Ok(_) => Ok((inner, used + 2)),
            },
        },
    }
}

/// `Declaration := IDENTIFIER ("=" Assignment)?`. There is no initial value
/// where `;` or `,` follows the name; anything else must be `=`.
#[verifier::opaque]
pub open spec fn variable_declaration(input: Seq<Lexeme>) -> Result<
    (DeclarationModel, nat),
    ParseError,
> {
    match identifier(input) {
        Err(error) => Err(error),
        Ok((id, _)) => {
            let next = peek(after(input, 1));
            if next == Some(TokenKind::Semicolon) || next == Some(TokenKind::Comma) {
                Ok((DeclarationModel { id, init: None }, 1))
            } else {
                match variable_initializer(after(input, 1)) {
                    Err(error) => Err(error),
                    Ok((value, used)) => Ok(
                        (DeclarationModel { id, init: Some(value) }, 1 + used),
                    ),
                }
            }
        },
    }
}

/// `"=" Assignment`
#[verifier::opaque]
pub open spec fn variable_initializer(input: Seq<Lexeme>) -> Result<
    (ExpressionModel, nat),
    ParseError,
> {
    match eat(input, TokenKind::SimpleAssign) {
        Err(error) => Err(error),
        Ok(_) => shift(assignment_expression(after(input, 1)), 1),
    }
}

/// `("," Declaration)*`, behind the declarations `done`.
#[verifier::opaque]
pub open spec fn variable_declarations_rest(
    input: Seq<Lexeme>,
    done: Seq<DeclarationModel>,
) -> Result<(Seq<DeclarationModel>, nat), ParseError>
    decreases input.len(),
{
    if peek(input) == Some(TokenKind::Comma) {
        match eat(input, TokenKind::Comma) {
            Err(error) => Err(error),
            Ok(_) => match variable_declaration(after(input, 1)) {
                Err(error) => Err(error),
                Ok((declaration, used)) => shift(
                    variable_declarations_rest(after(input, 1 + used), done.push(declaration)),
                    1 + used,
                ),
            },
        }
    } else {
        Ok((done, 0))
    }
}

/// `Declaration ("," Declaration)*`
#[verifier::opaque]
pub open spec fn variable_declarations_list(input: Seq<Lexeme>) -> Result<
    (Seq<DeclarationModel>, nat),
    ParseError,
> {
    match variable_declaration(input) {
        Err(error) => Err(error),
        Ok((first, used)) => shift(
            variable_declarations_rest(after(input, used), seq![first]),
            used,
        ),
    }
}

/// `"let" Declaration ("," Declaration)* ";"`
#[verifier::opaque]
pub open spec fn variable_statement(input: Seq<Lexeme>) -> Result<
    (StatementModel, nat),
    ParseError,
> {
    match eat(input, TokenKind::Let) {
        Err(error) => Err(error),
        Ok(_) => match variable_declarations_list(after(input, 1)) {
            Err(error) => Err(error),
            Ok((declarations, used)) => match eat(after(input, 1 + used), TokenKind::Semicolon) {
                Err(error) => Err(error),
                Ok(_) => Ok((StatementModel::Variable(declarations), used + 2)),
            },
        },
    }
}

/// `";"`
#[verifier::opaque]
pub open spec fn empty_statement(input: Seq<Lexeme>) -> Result<(StatementModel, nat), ParseError> {
    match eat(input, TokenKind::Semicolon) {
        Err(error) => Err(error),
        Ok(_) => Ok((StatementModel::Empty, 1)),
    }
}

/// `Expression ";"`
#[verifier::opaque]
pub open spec fn expression_statement(input: Seq<Lexeme>) -> Result<
    (StatementModel, nat),
    ParseError,
> {
    match expression(input) {
        Err(error) => Err(error),
        Ok((value, used)) => match eat(after(input, used), TokenKind::Semicolon) {
            Err(error) => Err(error),
            Ok(_) => Ok((StatementModel::Expression(value), used + 1)),
        },
    }
}

/// A statement, chosen by the kind of the lookahead token alone.
#[verifier::opaque]
pub open spec fn statement(input: Seq<Lexeme>) -> Result<(StatementModel, nat), ParseError>
    decreases input.len(), 2nat,
{
    match peek(input) {
        Some(TokenKind::Semicolon) => empty_statement(input),
        Some(TokenKind::OpenBrace) => block_statement(input),
        Some(TokenKind::Let) => variable_statement(input),
        Some(TokenKind::If) => if_statement(input),
        _ => expression_statement(input),
    }
}

/// `"{" StatementList? "}"`
#[verifier::opaque]
pub open spec fn block_statement(input: Seq<Lexeme>) -> Result<(StatementModel, nat), ParseError>
    decreases input.len(), 1nat,
{
    match eat(input, TokenKind::OpenBrace) {
        Err(error) => Err(error),
        Ok(_) => if peek(after(input, 1)) == Some(TokenKind::CloseBrace) {
            match eat(after(input, 1), TokenKind::CloseBrace) {
                Err(error) => Err(error),
                Ok(_) => Ok((StatementModel::Block(Seq::empty()), 2)),
            }
        } else {
            match statement_list(after(input, 1), Some(TokenKind::CloseBrace)) {
                Err(error) => Err(error),
                Ok((body, used)) => match eat(after(input, 1 + used), TokenKind::CloseBrace) {
                    Err(error) => Err(error),
                    Ok(_) => Ok((StatementModel::Block(body), used + 2)),
                },
            }
        },
    }
}

/// `"if" "(" Expression ")" Statement ("else" Statement)?`. An `else` goes
/// to the `if` that was opened last.
#[verifier::opaque]
pub open spec fn if_statement(input: Seq<Lexeme>) -> Result<(StatementModel, nat), ParseError>
    decreases input.len(), 1nat,
{
    match eat(input, TokenKind::If) {
        Err(error) => Err(error),
        Ok(_) => match eat(after(input, 1), TokenKind::OpenParen) {
            Err(error) => Err(error),
            Ok(_) => match expression(after(input, 2)) {
                Err(error) => Err(error),
                Ok((test, n)) => match eat(after(input, 2 + n), TokenKind::CloseParen) {
                    Err(error) => Err(error),
                    Ok(_) => match statement(after(input, 3 + n)) {
                        Err(error) => Err(error),
                        Ok((consequent, m)) => if peek(after(input, 3 + n + m)) == Some(
                            TokenKind::Else,
                        ) {
                            match eat(after(input, 3 + n + m), TokenKind::Else) {
                                Err(error) => Err(error),
                                Ok(_) => match statement(after(input, 4 + n + m)) {
                                    Err(error) => Err(error),
                                    Ok((alternate, k)) => Ok(
                                        (
                                            StatementModel::If {
                                                test,
                                                consequent: Box::new(consequent),
                                                alternate: Some(Box::new(alternate)),
                                            },
                                            4 + n + m + k,
                                        ),
                                    ),
                                },
                            }
                        } else {
                            Ok(
                                (
                                    StatementModel::If {
                                        test,
                                        consequent: Box::new(consequent),
                                        alternate: None,
                                    },
                                    3 + n + m,
                                ),
                            )
                        },
                    },
                },
            },
        },
    }
}

/// Further statements behind the statements `done`, for as long as a token
/// is next and it is not of the kind `stop`. (A statement consumes a token,
/// so what is left gets shorter each time.)
#[verifier::opaque]
pub open spec fn statement_list_rest(
    input: Seq<Lexeme>,
    stop: Option<TokenKind>,
    done: Seq<StatementModel>,
) -> Result<(Seq<StatementModel>, nat), ParseError>
    decreases input.len(), 3nat,
{
    if peek(input).is_some() && peek(input) != stop {
        match statement(input) {
            Err(error) => Err(error),
            Ok((next, used)) => if used > 0 {
                shift(statement_list_rest(after(input, used), stop, done.push(next)), used)
            } else {
                Ok((done.push(next), used))
            },
        }
    } else {
        Ok((done, 0))
    }
}

/// `Statement+`, up to the end of the input or to a token of the kind `stop`.
#[verifier::opaque]
pub open spec fn statement_list(input: Seq<Lexeme>, stop: Option<TokenKind>) -> Result<
    (Seq<StatementModel>, nat),
    ParseError,
>
    decreases input.len(), 4nat,
{
    match statement(input) {
        Err(error) => Err(error),
        Ok((first, used)) => shift(
            statement_list_rest(after(input, used), stop, seq![first]),
            used,
        ),
    }
}

/// `Program := StatementList`, up to the end of the input.
#[verifier::opaque]
pub open spec fn program(input: Seq<Lexeme>) -> Result<(ProgramModel, nat), ParseError> {
    match statement_list(input, None) {
        Err(error) => Err(error),
        Ok((body, used)) => Ok((ProgramModel { body }, used)),
    }
}

/// The tree of a source text, or the failure that stops the parser. The
/// first token is fetched before any rule is tried.
pub open spec fn parse_text(text: Seq<char>) -> Result<ProgramModel, ParseError> {
    let input = lexemes(text, 0);
    if input.len() > 0 && input[0] is Bad {
        Err(input[0]->Bad_0)
    } else {
        match program(input) {
            Err(error) => Err(error),
            Ok((tree, _)) => Ok(tree),
        }
    }
}

/// Skipping in two steps is skipping once.
pub broadcast proof fn lemma_after_after(input: Seq<Lexeme>, first: nat, second: nat)
    ensures
        #[trigger] after(after(input, first), second) == after(input, first + second),
{
    assert(after(after(input, first), second) =~= after(input, first + second));
}

} // verus!
