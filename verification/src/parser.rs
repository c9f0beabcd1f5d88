//! The parser: one procedure for each rule of the grammar, all built from
//! `eat` and one token of lookahead.

use crate::grammar;
use crate::grammar::{after, all_digits, digits_value, lexemes, number_value, Lexeme};
use crate::nodes::{
    BooleanLiteral, Expression, Identifier, LeftHandSideExpression, Literal, NullLiteral,
    NumericLiteral, ParseError, StringLiteral, Token, TokenKind,
};
use crate::tokenizer::{lemma_scan_bounds, Tokenizer};
use vstd::prelude::*;
use vstd::string::{StrSliceExecFns, StringExecFns};

verus! {

/// A longer string of digits writes a number that is no smaller.
pub proof fn lemma_digits_value_grows(digits: Seq<char>, count: int)
    requires
        all_digits(digits),
        0 <= count <= digits.len(),
    ensures
        0 <= digits_value(digits.take(count)) <= digits_value(digits),
    decreases digits.len() - count,
{
    if count == digits.len() {
        assert(digits.take(count) =~= digits);
        lemma_digits_value_nonnegative(digits);
    } else {
        lemma_digits_value_grows(digits, count + 1);
        let longer = digits.take(count + 1);
        assert(longer.drop_last() =~= digits.take(count));
        assert(longer.last() == digits[count]);
        lemma_digits_value_nonnegative(digits.take(count));
    }
}

/// A string of digits writes no negative number.
pub proof fn lemma_digits_value_nonnegative(digits: Seq<char>)
    requires
        all_digits(digits),
    ensures
        0 <= digits_value(digits),
    decreases digits.len(),
{
    if digits.len() > 0 {
        lemma_digits_value_nonnegative(digits.drop_last());
    }
}

/// The value of one decimal digit.
pub fn digit_value(digit: char) -> (value: i64)
    requires
        '0' <= digit <= '9',
    ensures
        value == digit as int - '0' as int,
{
    if digit == '0' {
        0
    } else if digit == '1' {
        1
    } else if digit == '2' {
        2
    } else if digit == '3' {
        3
    } else if digit == '4' {
        4
    } else if digit == '5' {
        5
    } else if digit == '6' {
        6
    } else if digit == '7' {
        7
    } else if digit == '8' {
        8
    } else {
        9
    }
}

/// Reads `text` as a decimal number of 64 signed bits: `None` where it is
/// empty, holds anything but the digits `0` to `9`, or is too large.
pub fn parse_number(text: &str) -> (value: Option<i64>)
    ensures
        match number_value(text@) {
            Some(number) => value.is_some() && value.unwrap() as int == number,
            None => value.is_none(),
        },
{
    let length: usize = text.unicode_len();
    if length == 0 {
        return None;
    }
    let mut value: i64 = 0;
    let mut index: usize = 0;
    while index < length
        invariant
            index <= length,
            length == text@.len(),
            all_digits(text@.take(index as int)),
            value == digits_value(text@.take(index as int)),
            0 <= value,
        decreases length - index,
    {
        let digit = text.get_char(index);
        if digit < '0' || digit > '9' {
            return None;
        }
        let ghost longer = text@.take(index + 1);
        proof {
            assert(longer.drop_last() =~= text@.take(index as int));
            assert(longer.last() == digit);
            assert forall|i: int| 0 <= i < longer.len() implies '0' <= #[trigger] longer[i]
                <= '9' by {
                if i < index {
                    assert(longer[i] == text@.take(index as int)[i]);
                }
            }
        }
        let units: i64 = digit_value(digit);
        if value > (i64::MAX - units) / 10 {
            proof {
                if all_digits(text@) {
                    lemma_digits_value_grows(text@, index + 1);
                }
            }
            return None;
        }
        value = value * 10 + units;
        index = index + 1;
    }
    proof {
        assert(text@.take(length as int) =~= text@);
    }
    Some(value)
}

/// What a rule owes: with `want` the grammar's result on the lexemes
/// `before`, the rule gives back the same tree or the same failure, and on
/// success it leaves the lexemes `behind` that follow the consumed tokens.
pub open spec fn outcome<M>(
    want: Result<(M, nat), ParseError>,
    got: Result<M, ParseError>,
    before: Seq<Lexeme>,
    behind: Seq<Lexeme>,
) -> bool {
    match want {
        Ok((tree, used)) => got == Ok::<M, ParseError>(tree) && 0 < used <= before.len() && behind
            == after(before, used),
        Err(error) => got == Err::<M, ParseError>(error),
    }
}

/// The model of what a rule gave back.
pub open spec fn viewed<T: View>(result: Result<T, ParseError>) -> Result<T::V, ParseError> {
    match result {
        Ok(tree) => Ok(tree@),
        Err(error) => Err(error),
    }
}

/// A parser: the scanner it pulls tokens from, and the one token it has
/// fetched and not yet consumed.
#[derive(Debug)]
pub struct Parser {
    pub string: String,
    pub lookahead: Option<Token>,
    pub tokenizer: Tokenizer,
}

impl Default for Parser {
    /// A parser over the empty text, with no token fetched.
    fn default() -> (parser: Self)
        ensures
            parser.string@ == Seq::<char>::empty(),
            parser.lookahead.is_none(),
            parser.tokenizer.string@ == Seq::<char>::empty(),
            parser.tokenizer.cursor == 0,
    {
        Parser { string: String::new(), lookahead: None, tokenizer: Tokenizer::new() }
    }
}

impl Parser {
    /// The lexemes that are still to be read: the lookahead token and what
    /// the scanner will yield behind it; nothing where no token is next.
    #[verifier::opaque]
    pub open spec fn stream(&self) -> Seq<Lexeme> {
        match self.lookahead {
            Some(token) => seq![Lexeme::Token(token@)] + lexemes(
                self.tokenizer.string@,
                self.tokenizer.cursor as nat,
            ),
            None => Seq::empty(),
        }
    }

    /// Whether the parser holds the same text as `before`: no rule changes
    /// what is being parsed.
    pub open spec fn keeps_text(&self, before: Parser) -> bool {
        self.string == before.string && self.tokenizer.string == before.tokenizer.string
    }

    /// A parser over the empty text, with no token fetched.
    pub fn new() -> (parser: Self)
        ensures
            parser.string@ == Seq::<char>::empty(),
            parser.lookahead.is_none(),
            parser.tokenizer.string@ == Seq::<char>::empty(),
            parser.tokenizer.cursor == 0,
    {
        Self::default()
    }

    /// The kind of the lookahead token.
    pub fn lookahead_kind(&self) -> (kind: Option<TokenKind>)
        ensures
            kind == grammar::peek(self.stream()),
            kind.is_some() == self.lookahead.is_some(),
            kind.is_none() == (self.stream().len() == 0),
    {
        reveal(Parser::stream);
        match &self.lookahead {
            Some(token) => Some(token.typ),
            None => None,
        }
    }

    /// Consumes the lookahead token if it is of the kind `token_type`, and
    /// fetches the next one. Where no token of that kind is next, it fails
    /// and leaves the parser as it was.
    pub fn eat(&mut self, token_type: TokenKind) -> (eaten: Result<Token, ParseError>)
        ensures
            match grammar::eat(old(self).stream(), token_type) {
                Ok(token) => eaten.is_ok() && eaten.unwrap()@ == token && old(self).stream().len()
                    > 0 && final(self).stream() == after(old(self).stream(), 1),
                Err(error) => eaten == Err::<Token, ParseError>(error),
            },
            grammar::peek(old(self).stream()) != Some(token_type) ==> *final(self) == *old(self),
            final(self).keeps_text(*old(self)),
    {
        reveal(Parser::stream);
        match self.lookahead_kind() {
            None => {
                return Err(ParseError::UnexpectedEndOfInput { expected: token_type });
            },
            Some(found) => {
                if found != token_type {
                    return Err(ParseError::UnexpectedToken { found, expected: token_type });
                }
            },
        }
        let ghost text = self.tokenizer.string@;
        let ghost cursor = self.tokenizer.cursor as nat;
        let ghost before = self.stream();
        proof {
            lemma_scan_bounds(text, cursor);
        }
        let token = self.lookahead.take().unwrap();
        match self.tokenizer.next() {
            Err(error) => Err(error),
            Ok(next) => {
                self.lookahead = next;
                proof {
                    assert(self.stream() =~= after(before, 1));
                }
                Ok(token)
            },
        }
    }

    /// Whether the lookahead token is of the kind `kind`.
    pub fn lookahead_is(&self, kind: TokenKind) -> (yes: bool)
        ensures
            yes == (grammar::peek(self.stream()) == Some(kind)),
    {
        reveal(Parser::stream);
        match &self.lookahead {
            Some(token) => token.typ == kind,
            None => false,
        }
    }
    /// `IDENTIFIER`
    pub fn identifier(&mut self) -> (parsed: Result<Identifier, ParseError>)
        ensures
            outcome(
                grammar::identifier(old(self).stream()),
                viewed(parsed),
                old(self).stream(),
                final(self).stream(),
            ),
            grammar::peek(old(self).stream()) != Some(TokenKind::Identifier) ==> *final(self)
                == *old(self),
            final(self).keeps_text(*old(self)),
    {
        match self.eat(TokenKind::Identifier) {
            Ok(token) => Ok(Identifier { name: token.value }),
            Err(error) => Err(error),
        }
    }

    /// `LeftHandSide := IDENTIFIER`
    pub fn left_hand_side_expression(&mut self) -> (parsed: Result<
        LeftHandSideExpression,
        ParseError,
    >)
        ensures
            outcome(
                grammar::left_hand_side_expression(old(self).stream()),
                viewed(parsed),
                old(self).stream(),
                final(self).stream(),
            ),
            grammar::peek(old(self).stream()) != Some(TokenKind::Identifier) ==> *final(self)
                == *old(self),
            final(self).keeps_text(*old(self)),
    {
        match self.identifier() {
            Ok(name) => Ok(LeftHandSideExpression::Identifier(name)),
            Err(error) => Err(error),
        }
    }

    /// Whether a token of the kind `token_type` starts a literal.
    pub fn is_literal(&self, token_type: TokenKind) -> (yes: bool)
        ensures
            yes == grammar::is_literal(Some(token_type)),
    {
        token_type == TokenKind::Number || token_type == TokenKind::String || token_type
            == TokenKind::True || token_type == TokenKind::False || token_type == TokenKind::Null
    }

    /// Whether a token of the kind `token_type` is an assignment operator.
    pub fn is_assignment_operator(&self, token_type: TokenKind) -> (yes: bool)
        ensures
            yes == grammar::is_assignment_operator(Some(token_type)),
    {
        token_type == TokenKind::SimpleAssign || token_type == TokenKind::ComplexAssign
    }

    /// `NUMBER`, read as a decimal number of 64 signed bits.
    pub fn numeric_literal(&mut self) -> (parsed: Result<NumericLiteral, ParseError>)
        ensures
            outcome(
                grammar::numeric_literal(old(self).stream()),
                viewed(parsed),
                old(self).stream(),
                final(self).stream(),
            ),
            grammar::peek(old(self).stream()) != Some(TokenKind::Number) ==> *final(self)
                == *old(self),
            final(self).keeps_text(*old(self)),
    {
        let token = match self.eat(TokenKind::Number) {
            Ok(token) => token,
            Err(error) => {
                return Err(error);
            },
        };
        match parse_number(token.value.as_str()) {
            Some(value) => Ok(NumericLiteral { value }),
            None => Err(ParseError::InvalidNumber),
        }
    }

    /// `STRING`. The token holds the text between the quotes already.
    pub fn string_literal(&mut self) -> (parsed: Result<StringLiteral, ParseError>)
        ensures
            outcome(
                grammar::string_literal(old(self).stream()),
                viewed(parsed),
                old(self).stream(),
                final(self).stream(),
            ),
            grammar::peek(old(self).stream()) != Some(TokenKind::String) ==> *final(self)
                == *old(self),
            final(self).keeps_text(*old(self)),
    {
        match self.eat(TokenKind::String) {
            Ok(token) => Ok(StringLiteral { value: token.value }),
            Err(error) => Err(error),
        }
    }

    /// `"true"` where `value` holds, `"false"` where it does not.
    pub fn boolean_literal(&mut self, value: bool) -> (parsed: Result<BooleanLiteral, ParseError>)
        ensures
            outcome(
                grammar::boolean_literal(old(self).stream(), value),
                viewed(parsed),
                old(self).stream(),
                final(self).stream(),
            ),
            grammar::peek(old(self).stream()) != Some(
                if value {
                    TokenKind::True
                } else {
                    TokenKind::False
                },
            ) ==> *final(self) == *old(self),
            final(self).keeps_text(*old(self)),
    {
        if value {
            match self.eat(TokenKind::True) {
                Ok(_) => Ok(BooleanLiteral { value: true }),
                Err(error) => Err(error),
            }
        } else {
            match self.eat(TokenKind::False) {
                Ok(_) => Ok(BooleanLiteral { value: false }),
                Err(error) => Err(error),
            }
        }
    }

    /// `"null"`
    pub fn null_literal(&mut self) -> (parsed: Result<NullLiteral, ParseError>)
        ensures
            outcome(
                grammar::null_literal(old(self).stream()),
                viewed(parsed),
                old(self).stream(),
                final(self).stream(),
            ),
            grammar::peek(old(self).stream()) != Some(TokenKind::Null) ==> *final(self)
                == *old(self),
            final(self).keeps_text(*old(self)),
    {
        match self.eat(TokenKind::Null) {
            Ok(_) => Ok(NullLiteral {  }),
            Err(error) => Err(error),
        }
    }

    /// `Literal := NUMBER | STRING | "true" | "false" | "null"`. Where the
    /// lookahead token starts no literal, it fails and consumes nothing.
    pub fn literal(&mut self) -> (parsed: Result<Literal, ParseError>)
        ensures
            outcome(
                grammar::literal(old(self).stream()),
                viewed(parsed),
                old(self).stream(),
                final(self).stream(),
            ),
            !grammar::is_literal(grammar::peek(old(self).stream())) ==> *final(self) == *old(self),
            final(self).keeps_text(*old(self)),
    {
        match self.lookahead_kind() {
            Some(TokenKind::Number) => match self.numeric_literal() {
                Ok(number) => Ok(Literal::NumericLiteral(number)),
                Err(error) => Err(error),
            },
            Some(TokenKind::String) => match self.string_literal() {
                Ok(string) => Ok(Literal::StringLiteral(string)),
                Err(error) => Err(error),
            },
            Some(TokenKind::True) => match self.boolean_literal(true) {
                Ok(boolean) => Ok(Literal::BooleanLiteral(boolean)),
                Err(error) => Err(error),
            },
            Some(TokenKind::False) => match self.boolean_literal(false) {
                Ok(boolean) => Ok(Literal::BooleanLiteral(boolean)),
                Err(error) => Err(error),
            },
            Some(TokenKind::Null) => match self.null_literal() {
                Ok(null) => Ok(Literal::NullLiteral(null)),
                Err(error) => Err(error),
            },
            Some(kind) => Err(ParseError::UnsupportedTokenType { kind }),
            None => Err(ParseError::UnexpectedEndOfInput { expected: TokenKind::Number }),
        }
    }

    /// The left side of an assignment: the identifier that `node` is, and a
    /// failure for every other expression.
    pub fn check_valid_assignment_target(&self, node: Expression) -> (target: Result<
        Identifier,
        ParseError,
    >)
        ensures
            match node@ {
                crate::nodes::ExpressionModel::Identifier(name) => viewed(target) == Ok::<
                    Seq<char>,
                    ParseError,
                >(name),
                _ => target == Err::<Identifier, ParseError>(ParseError::InvalidAssignmentTarget),
            },
    {
        match node {
            Expression::LeftHandSideExpression(left) => match left {
                LeftHandSideExpression::Identifier(name) => Ok(name),
            },
            _ => Err(ParseError::InvalidAssignmentTarget),
        }
    }

    /// `ASSIGN := "=" | "+=" | "-=" | "*=" | "/="`
    pub fn assignment_operator(&mut self) -> (eaten: Result<Token, ParseError>)
        ensures
            match grammar::assignment_operator(old(self).stream()) {
                Ok(token) => eaten.is_ok() && eaten.unwrap()@ == token && old(self).stream().len()
                    > 0 && final(self).stream() == after(old(self).stream(), 1),
                Err(error) => eaten == Err::<Token, ParseError>(error),
            },
            !grammar::is_assignment_operator(grammar::peek(old(self).stream())) ==> *final(self)
                == *old(self),
            final(self).keeps_text(*old(self)),
    {
        if self.lookahead_is(TokenKind::SimpleAssign) {
            self.eat(TokenKind::SimpleAssign)
        } else {
            self.eat(TokenKind::ComplexAssign)
        }
    }
}

} // verus!
