//! The expression rules: assignment, the six levels of binary operators,
//! and primary expressions.

use crate::grammar;
use crate::grammar::{after, Level};
use crate::nodes::{
    AssignmentExpression, BinaryExpression, Expression, LogicalExpression, ParseError, TokenKind,
};
use crate::parser::{outcome, viewed, Parser};
use vstd::prelude::*;

verus! {

broadcast use grammar::lemma_after_after;

/// The kind of the operator tokens of `level`.
pub fn operator_kind(level: Level) -> (kind: TokenKind)
    ensures
        kind == grammar::level_operator(level),
{
    match level {
        Level::LogicalOr => TokenKind::LogicalOr,
        Level::LogicalAnd => TokenKind::LogicalAnd,
        Level::Equality => TokenKind::EqualityOperator,
        Level::Relational => TokenKind::RelationalOperator,
        Level::Additive => TokenKind::AdditiveOperator,
        Level::Multiplicative => TokenKind::MultiplicativeOperator,
    }
}

/// The node that an operator of `level` makes of its two operands: a
/// logical expression on the two logical levels, a binary one on the others.
pub fn combine(level: Level, operator: String, left: Expression, right: Expression) -> (node:
    Expression)
    ensures
        node@ == grammar::combine(level, operator@, left@, right@),
{
    match level {
        Level::LogicalOr | Level::LogicalAnd => Expression::LogicalExpression(
            LogicalExpression { operator, left: Box::new(left), right: Box::new(right) },
        ),
        _ => Expression::BinaryExpression(
            BinaryExpression { operator, left: Box::new(left), right: Box::new(right) },
        ),
    }
}

impl Parser {
    /// `Expression := Assignment`
    #[verifier::spinoff_prover]
    pub fn expression(&mut self) -> (parsed: Result<Expression, ParseError>)
        ensures
            outcome(
                grammar::expression(old(self).stream()),
                viewed(parsed),
                old(self).stream(),
                final(self).stream(),
            ),
            final(self).keeps_text(*old(self)),
        decreases old(self).stream().len(), 23nat,
    {
        self.assignment_expression()
    }

    /// `Assignment := LogicalOr (ASSIGN Assignment)?`, grouped to the right.
    /// Fails where an operator follows a left side that is no bare identifier.
    #[verifier::spinoff_prover]
    pub fn assignment_expression(&mut self) -> (parsed: Result<Expression, ParseError>)
        ensures
            outcome(
                grammar::assignment_expression(old(self).stream()),
                viewed(parsed),
                old(self).stream(),
                final(self).stream(),
            ),
            final(self).keeps_text(*old(self)),
        decreases old(self).stream().len(), 22nat,
    {
        let left = match self.logical_or_expression() {
            Ok(left) => left,
            Err(error) => {
                return Err(error);
            },
        };
        let assigns = match self.lookahead_kind() {
            Some(kind) => self.is_assignment_operator(kind),
            None => false,
        };
        if !assigns {
            return Ok(left);
        }
        let operator = match self.assignment_operator() {
            Ok(token) => token.value,
            Err(error) => {
                return Err(error);
            },
        };
        let target = match self.check_valid_assignment_target(left) {
            Ok(target) => target,
            Err(error) => {
                return Err(error);
            },
        };
        let right = match self.assignment_expression() {
            Ok(right) => right,
            Err(error) => {
                return Err(error);
            },
        };
        Ok(
            Expression::AssignmentExpression(
                AssignmentExpression { operator, left: target, right: Box::new(right) },
            ),
        )
    }

    /// An operand of `level`: a chain of the next tighter level, or a
    /// primary expression under the tightest.
    #[verifier::spinoff_prover]
    pub fn operand(&mut self, level: Level) -> (parsed: Result<Expression, ParseError>)
        ensures
            outcome(
                grammar::operand(level, old(self).stream()),
                viewed(parsed),
                old(self).stream(),
                final(self).stream(),
            ),
            final(self).keeps_text(*old(self)),
        decreases old(self).stream().len(), 3 * grammar::level_height(level) + 1,
    {
        match level {
            Level::LogicalOr => self.logical_and_expression(),
            Level::LogicalAnd => self.equality_expression(),
            Level::Equality => self.relational_expression(),
            Level::Relational => self.additive_expression(),
            Level::Additive => self.multiplicative_expression(),
            Level::Multiplicative => self.primary_expression(),
        }
    }

    /// `Operand (OPERATOR Operand)*` for the operators of `level`: one
    /// operand, then for as long as an operator of the level is next, the
    /// operator and one more operand, folded into a node whose left side is
    /// all that was read before. The tree groups to the left.
    #[verifier::spinoff_prover]
    pub fn binary_chain(&mut self, level: Level) -> (parsed: Result<Expression, ParseError>)
        ensures
            outcome(
                grammar::chain(level, old(self).stream()),
                viewed(parsed),
                old(self).stream(),
                final(self).stream(),
            ),
            final(self).keeps_text(*old(self)),
        decreases old(self).stream().len(), 3 * grammar::level_height(level) + 2,
    {
        let ghost start = self.stream();
        let kind = operator_kind(level);
        let mut left = match self.operand(level) {
            Ok(left) => left,
            Err(error) => {
                return Err(error);
            },
        };
        let ghost mut used: nat = grammar::operand(level, start).unwrap().1;
        while self.lookahead_is(kind)
            invariant
                self.keeps_text(*old(self)),
                start == old(self).stream(),
                kind == grammar::level_operator(level),
                0 < used <= start.len(),
                self.stream() == after(start, used),
                grammar::chain(level, start) == grammar::shift(
                    grammar::chain_rest(level, self.stream(), left@),
                    used,
                ),
            decreases self.stream().len(),
        {
            let ghost here = self.stream();
            let operator = match self.eat(kind) {
                Ok(token) => token.value,
                Err(error) => {
                    return Err(error);
                },
            };
            let right = match self.operand(level) {
                Ok(right) => right,
                Err(error) => {
                    return Err(error);
                },
            };
            proof {
                used = used + 1 + grammar::operand(level, after(here, 1)).unwrap().1;
            }
            left = combine(level, operator, left, right);
        }
        Ok(left)
    }

    /// `LogicalOr := LogicalAnd ("||" LogicalAnd)*`, grouped to the left.
    #[verifier::spinoff_prover]
    pub fn logical_or_expression(&mut self) -> (parsed: Result<Expression, ParseError>)
        ensures
            outcome(
                grammar::chain(Level::LogicalOr, old(self).stream()),
                viewed(parsed),
                old(self).stream(),
                final(self).stream(),
            ),
            final(self).keeps_text(*old(self)),
        decreases old(self).stream().len(), 21nat,
    {
        self.binary_chain(Level::LogicalOr)
    }

    /// `LogicalAnd := Equality ("&&" Equality)*`, grouped to the left.
    #[verifier::spinoff_prover]
    pub fn logical_and_expression(&mut self) -> (parsed: Result<Expression, ParseError>)
        ensures
            outcome(
                grammar::chain(Level::LogicalAnd, old(self).stream()),
                viewed(parsed),
                old(self).stream(),
                final(self).stream(),
            ),
            final(self).keeps_text(*old(self)),
        decreases old(self).stream().len(), 18nat,
    {
        self.binary_chain(Level::LogicalAnd)
    }

    /// `Equality := Relational (("==" | "!=") Relational)*`, grouped to the left.
    #[verifier::spinoff_prover]
    pub fn equality_expression(&mut self) -> (parsed: Result<Expression, ParseError>)
        ensures
            outcome(
                grammar::chain(Level::Equality, old(self).stream()),
                viewed(parsed),
                old(self).stream(),
                final(self).stream(),
            ),
            final(self).keeps_text(*old(self)),
        decreases old(self).stream().len(), 15nat,
    {
        self.binary_chain(Level::Equality)
    }

    /// `Relational := Additive (("<" | ">" | "<=" | ">=") Additive)*`, grouped to the left.
    #[verifier::spinoff_prover]
    pub fn relational_expression(&mut self) -> (parsed: Result<Expression, ParseError>)
        ensures
            outcome(
                grammar::chain(Level::Relational, old(self).stream()),
                viewed(parsed),
                old(self).stream(),
                final(self).stream(),
            ),
            final(self).keeps_text(*old(self)),
        decreases old(self).stream().len(), 12nat,
    {
        self.binary_chain(Level::Relational)
    }

    /// `Additive := Multiplicative (("+" | "-") Multiplicative)*`, grouped to the left.
    #[verifier::spinoff_prover]
    pub fn additive_expression(&mut self) -> (parsed: Result<Expression, ParseError>)
        ensures
            outcome(
                grammar::chain(Level::Additive, old(self).stream()),
                viewed(parsed),
                old(self).stream(),
                final(self).stream(),
            ),
            final(self).keeps_text(*old(self)),
        decreases old(self).stream().len(), 9nat,
    {
        self.binary_chain(Level::Additive)
    }

    /// `Multiplicative := Primary (("*" | "/") Primary)*`, grouped to the left.
    #[verifier::spinoff_prover]
    pub fn multiplicative_expression(&mut self) -> (parsed: Result<Expression, ParseError>)
        ensures
            outcome(
                grammar::chain(Level::Multiplicative, old(self).stream()),
                viewed(parsed),
                old(self).stream(),
                final(self).stream(),
            ),
            final(self).keeps_text(*old(self)),
        decreases old(self).stream().len(), 6nat,
    {
        self.binary_chain(Level::Multiplicative)
    }

    /// `Primary := Literal | "(" Expression ")" | LeftHandSide`, chosen by the
    /// kind of the lookahead token alone.
    #[verifier::spinoff_prover]
    pub fn primary_expression(&mut self) -> (parsed: Result<Expression, ParseError>)
        ensures
            outcome(
                grammar::primary_expression(old(self).stream()),
                viewed(parsed),
                old(self).stream(),
                final(self).stream(),
            ),
            final(self).keeps_text(*old(self)),
        decreases old(self).stream().len(), 1nat,
    {
        let starts_literal = match self.lookahead_kind() {
            Some(kind) => self.is_literal(kind),
            None => false,
        };
        if starts_literal {
            match self.literal() {
                Ok(value) => Ok(Expression::Literal(value)),
                Err(error) => Err(error),
            }
        } else if self.lookahead_is(TokenKind::OpenParen) {
            self.parenthesized_expression()
        } else {
            match self.left_hand_side_expression() {
                Ok(left) => Ok(Expression::LeftHandSideExpression(left)),
                Err(error) => Err(error),
            }
        }
    }

    /// `"(" Expression ")"`: the tree of the expression between the parentheses.
    #[verifier::spinoff_prover]
    pub fn parenthesized_expression(&mut self) -> (parsed: Result<Expression, ParseError>)
        ensures
            outcome(
                grammar::parenthesized_expression(old(self).stream()),
                viewed(parsed),
                old(self).stream(),
                final(self).stream(),
            ),
            final(self).keeps_text(*old(self)),
        decreases old(self).stream().len(), 0nat,
    {
        match self.eat(TokenKind::OpenParen) {
            Ok(_) => {},
            Err(error) => {
                return Err(error);
            },
        }
        let inner = match self.expression() {
            Ok(inner) => inner,
            Err(error) => {
                return Err(error);
            },
        };
        match self.eat(TokenKind::CloseParen) {
            Ok(_) => Ok(inner),
            Err(error) => Err(error),
        }
    }

}

} // verus!
