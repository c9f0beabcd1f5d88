//! The statement rules, and the entry point.

use crate::grammar;
use crate::grammar::{after, lexemes, Lexeme};
use crate::nodes::{
    declaration_models, lemma_block_model, statement_models, BlockStatement, DeclarationModel,
    ExpressionStatement, IfStatement, ParseError, Program, Statement, StatementModel, Test,
    TokenKind, VariableDeclaration, VariableInitializer, VariableStatement,
};
use crate::parser::{outcome, viewed, Parser};
use crate::tokenizer::lemma_scan_bounds;
use vstd::prelude::*;
use vstd::string::StringExecFns;

verus! {

broadcast use grammar::lemma_after_after;

/// The models of the declarations that a rule gave back.
pub open spec fn viewed_declarations(result: Result<Vec<VariableDeclaration>, ParseError>) -> Result<
    Seq<DeclarationModel>,
    ParseError,
> {
    match result {
        Ok(list) => Ok(declaration_models(list@)),
        Err(error) => Err(error),
    }
}

/// The models of the statements that a rule gave back.
pub open spec fn viewed_statements(result: Result<Vec<Statement>, ParseError>) -> Result<
    Seq<StatementModel>,
    ParseError,
> {
    match result {
        Ok(list) => Ok(statement_models(list@)),
        Err(error) => Err(error),
    }
}

impl Parser {
    /// `"=" Assignment`
    #[verifier::spinoff_prover]
    pub fn variable_initializer(&mut self) -> (parsed: Result<VariableInitializer, ParseError>)
        ensures
            outcome(
                grammar::variable_initializer(old(self).stream()),
                viewed(parsed),
                old(self).stream(),
                final(self).stream(),
            ),
            final(self).keeps_text(*old(self)),
    {
        reveal(grammar::variable_initializer);
        match self.eat(TokenKind::SimpleAssign) {
            Ok(_) => {},
            Err(error) => {
                return Err(error);
            },
        }
        match self.assignment_expression() {
            Ok(value) => Ok(VariableInitializer::from_expression(value)),
            Err(error) => Err(error),
        }
    }

    /// `Declaration := IDENTIFIER ("=" Assignment)?`. There is no initial
    /// value where `;` or `,` follows the name; anything else must be `=`.
    #[verifier::spinoff_prover]
    pub fn variable_declaration(&mut self) -> (parsed: Result<VariableDeclaration, ParseError>)
        ensures
            outcome(
                grammar::variable_declaration(old(self).stream()),
                viewed(parsed),
                old(self).stream(),
                final(self).stream(),
            ),
            final(self).keeps_text(*old(self)),
    {
        reveal(grammar::variable_declaration);
        let id = match self.identifier() {
            Ok(id) => id,
            Err(error) => {
                return Err(error);
            },
        };
        if self.lookahead_is(TokenKind::Semicolon) || self.lookahead_is(TokenKind::Comma) {
            return Ok(VariableDeclaration { id, init: None });
        }
        match self.variable_initializer() {
            Ok(init) => Ok(VariableDeclaration { id, init: Some(init) }),
            Err(error) => Err(error),
        }
    }

    /// `Declaration ("," Declaration)*`
    #[verifier::spinoff_prover]
    pub fn variable_declarations_list(&mut self) -> (parsed: Result<
        Vec<VariableDeclaration>,
        ParseError,
    >)
        ensures
            outcome(
                grammar::variable_declarations_list(old(self).stream()),
                viewed_declarations(parsed),
                old(self).stream(),
                final(self).stream(),
            ),
            final(self).keeps_text(*old(self)),
    {
        reveal(grammar::variable_declarations_list);
        reveal(grammar::variable_declarations_rest);
        let ghost start = self.stream();
        let mut declarations: Vec<VariableDeclaration> = Vec::new();
        let first = match self.variable_declaration() {
            Ok(first) => first,
            Err(error) => {
                return Err(error);
            },
        };
        declarations.push(first);
        let ghost mut used: nat = grammar::variable_declaration(start).unwrap().1;
        proof {
            assert(declaration_models(declarations@) =~= seq![first@]);
        }
        while self.lookahead_is(TokenKind::Comma)
            invariant
                self.keeps_text(*old(self)),
                start == old(self).stream(),
                0 < used <= start.len(),
                self.stream() == after(start, used),
                grammar::variable_declarations_list(start) == grammar::shift(
                    grammar::variable_declarations_rest(
                        self.stream(),
                        declaration_models(declarations@),
                    ),
                    used,
                ),
            decreases self.stream().len(),
        {
            reveal(grammar::variable_declarations_rest);
            let ghost here = self.stream();
            let ghost done = declaration_models(declarations@);
            match self.eat(TokenKind::Comma) {
                Ok(_) => {},
                Err(error) => {
                    return Err(error);
                },
            }
            let next = match self.variable_declaration() {
                Ok(next) => next,
                Err(error) => {
                    return Err(error);
                },
            };
            declarations.push(next);
            proof {
                used = used + 1 + grammar::variable_declaration(after(here, 1)).unwrap().1;
                assert(declaration_models(declarations@) =~= done.push(next@));
            }
        }
        Ok(declarations)
    }

    /// `"let" Declaration ("," Declaration)* ";"`
    #[verifier::spinoff_prover]
    pub fn variable_statement(&mut self) -> (parsed: Result<Statement, ParseError>)
        ensures
            outcome(
                grammar::variable_statement(old(self).stream()),
                viewed(parsed),
                old(self).stream(),
                final(self).stream(),
            ),
            final(self).keeps_text(*old(self)),
    {
        reveal(grammar::variable_statement);
        match self.eat(TokenKind::Let) {
            Ok(_) => {},
            Err(error) => {
                return Err(error);
            },
        }
        let declarations = match self.variable_declarations_list() {
            Ok(declarations) => declarations,
            Err(error) => {
                return Err(error);
            },
        };
        match self.eat(TokenKind::Semicolon) {
            Ok(_) => Ok(Statement::VariableStatement(VariableStatement { declarations })),
            Err(error) => Err(error),
        }
    }

    /// `";"`
    #[verifier::spinoff_prover]
    pub fn empty_statement(&mut self) -> (parsed: Result<Statement, ParseError>)
        ensures
            outcome(
                grammar::empty_statement(old(self).stream()),
                viewed(parsed),
                old(self).stream(),
                final(self).stream(),
            ),
            final(self).keeps_text(*old(self)),
    {
        reveal(grammar::empty_statement);
        match self.eat(TokenKind::Semicolon) {
            Ok(_) => Ok(Statement::EmptyStatement),
            Err(error) => Err(error),
        }
    }

    /// `Expression ";"`
    #[verifier::spinoff_prover]
    pub fn expression_statement(&mut self) -> (parsed: Result<Statement, ParseError>)
        ensures
            outcome(
                grammar::expression_statement(old(self).stream()),
                viewed(parsed),
                old(self).stream(),
                final(self).stream(),
            ),
            final(self).keeps_text(*old(self)),
    {
        reveal(grammar::expression_statement);
        let expression = match self.expression() {
            Ok(expression) => expression,
            Err(error) => {
                return Err(error);
            },
        };
        match self.eat(TokenKind::Semicolon) {
            Ok(_) => Ok(Statement::ExpressionStatement(ExpressionStatement { expression })),
            Err(error) => Err(error),
        }
    }

    /// `"{" StatementList? "}"`
    #[verifier::spinoff_prover]
    pub fn block_statement(&mut self) -> (parsed: Result<Statement, ParseError>)
        ensures
            outcome(
                grammar::block_statement(old(self).stream()),
                viewed(parsed),
                old(self).stream(),
                final(self).stream(),
            ),
            final(self).keeps_text(*old(self)),
        decreases old(self).stream().len(), 1nat,
    {
        reveal(grammar::block_statement);
        match self.eat(TokenKind::OpenBrace) {
            Ok(_) => {},
            Err(error) => {
                return Err(error);
            },
        }
        let body = if self.lookahead_is(TokenKind::CloseBrace) {
            Vec::new()
        } else {
            match self.statement_list(Some(TokenKind::CloseBrace)) {
                Ok(body) => body,
                Err(error) => {
                    return Err(error);
                },
            }
        };
        match self.eat(TokenKind::CloseBrace) {
            Ok(_) => {
                let block = BlockStatement { body };
                proof {
                    lemma_block_model(block);
                    assert(statement_models(Seq::<Statement>::empty()) =~= Seq::<
                        StatementModel,
                    >::empty());
                }
                Ok(Statement::BlockStatement(block))
            },
            Err(error) => Err(error),
        }
    }

    /// `"if" "(" Expression ")" Statement ("else" Statement)?`. An `else`
    /// goes to the `if` that was opened last.
    #[verifier::spinoff_prover]
    pub fn if_statement(&mut self) -> (parsed: Result<Statement, ParseError>)
        ensures
            outcome(
                grammar::if_statement(old(self).stream()),
                viewed(parsed),
                old(self).stream(),
                final(self).stream(),
            ),
            final(self).keeps_text(*old(self)),
        decreases old(self).stream().len(), 1nat,
    {
        reveal(grammar::if_statement);
        match self.eat(TokenKind::If) {
            Ok(_) => {},
            Err(error) => {
                return Err(error);
            },
        }
        match self.eat(TokenKind::OpenParen) {
            Ok(_) => {},
            Err(error) => {
                return Err(error);
            },
        }
        let test = match self.expression() {
            Ok(test) => Test::from_expression(test),
            Err(error) => {
                return Err(error);
            },
        };
        match self.eat(TokenKind::CloseParen) {
            Ok(_) => {},
            Err(error) => {
                return Err(error);
            },
        }
        let consequent = match self.statement() {
            Ok(consequent) => consequent,
            Err(error) => {
                return Err(error);
            },
        };
        if !self.lookahead_is(TokenKind::Else) {
            return Ok(
                Statement::IfStatement(
                    IfStatement { test, consequent: Box::new(consequent), alternate: None },
                ),
            );
        }
        match self.eat(TokenKind::Else) {
            Ok(_) => {},
            Err(error) => {
                return Err(error);
            },
        }
        let alternate = match self.statement() {
            Ok(alternate) => alternate,
            Err(error) => {
                return Err(error);
            },
        };
        Ok(
            Statement::IfStatement(
                IfStatement {
                    test,
                    consequent: Box::new(consequent),
                    alternate: Some(Box::new(alternate)),
                },
            ),
        )
    }

    /// A statement, chosen by the kind of the lookahead token alone.
    #[verifier::spinoff_prover]
    pub fn statement(&mut self) -> (parsed: Result<Statement, ParseError>)
        ensures
            outcome(
                grammar::statement(old(self).stream()),
                viewed(parsed),
                old(self).stream(),
                final(self).stream(),
            ),
            final(self).keeps_text(*old(self)),
        decreases old(self).stream().len(), 2nat,
    {
        reveal(grammar::statement);
        match self.lookahead_kind() {
            Some(TokenKind::Semicolon) => self.empty_statement(),
            Some(TokenKind::OpenBrace) => self.block_statement(),
            Some(TokenKind::Let) => self.variable_statement(),
            Some(TokenKind::If) => self.if_statement(),
            _ => self.expression_statement(),
        }
    }

    /// Whether a statement list goes on: a token is next, and it is not of
    /// the kind `stop_lookahead`.
    #[verifier::spinoff_prover]
    pub fn more_statements(&self, stop_lookahead: Option<TokenKind>) -> (more: bool)
        ensures
            more == (grammar::peek(self.stream()).is_some() && grammar::peek(self.stream())
                != stop_lookahead),
    {
        match self.lookahead_kind() {
            None => false,
            Some(kind) => match stop_lookahead {
                None => true,
                Some(stop) => kind != stop,
            },
        }
    }

    /// `Statement+`, up to the end of the input or to a token of the kind
    /// `stop_lookahead`.
    #[verifier::spinoff_prover]
    pub fn statement_list(&mut self, stop_lookahead: Option<TokenKind>) -> (parsed: Result<
        Vec<Statement>,
        ParseError,
    >)
        ensures
            outcome(
                grammar::statement_list(old(self).stream(), stop_lookahead),
                viewed_statements(parsed),
                old(self).stream(),
                final(self).stream(),
            ),
            parsed.is_ok() ==> grammar::peek(final(self).stream()).is_none() || grammar::peek(
                final(self).stream(),
            ) == stop_lookahead,
            final(self).keeps_text(*old(self)),
        decreases old(self).stream().len(), 4nat,
    {
        reveal(grammar::statement_list);
        reveal(grammar::statement_list_rest);
        let ghost start = self.stream();
        let mut statement_list: Vec<Statement> = Vec::new();
        let first = match self.statement() {
            Ok(first) => first,
            Err(error) => {
                return Err(error);
            },
        };
        statement_list.push(first);
        let ghost mut used: nat = grammar::statement(start).unwrap().1;
        proof {
            assert(statement_models(statement_list@) =~= seq![first@]);
        }
        while self.more_statements(stop_lookahead)
            invariant
                self.keeps_text(*old(self)),
                start == old(self).stream(),
                0 < used <= start.len(),
                self.stream() == after(start, used),
                grammar::statement_list(start, stop_lookahead) == grammar::shift(
                    grammar::statement_list_rest(
                        self.stream(),
                        stop_lookahead,
                        statement_models(statement_list@),
                    ),
                    used,
                ),
            decreases self.stream().len(),
        {
            reveal(grammar::statement_list_rest);
            let ghost here = self.stream();
            let ghost done = statement_models(statement_list@);
            let next = match self.statement() {
                Ok(next) => next,
                Err(error) => {
                    return Err(error);
                },
            };
            statement_list.push(next);
            proof {
                used = used + grammar::statement(here).unwrap().1;
                assert(statement_models(statement_list@) =~= done.push(next@));
            }
        }
        Ok(statement_list)
    }

    /// `Program := StatementList`, up to the end of the input.
    #[verifier::spinoff_prover]
    pub fn program(&mut self) -> (parsed: Result<Program, ParseError>)
        ensures
            outcome(
                grammar::program(old(self).stream()),
                viewed(parsed),
                old(self).stream(),
                final(self).stream(),
            ),
            parsed.is_ok() ==> grammar::peek(final(self).stream()).is_none(),
            final(self).keeps_text(*old(self)),
    {
        reveal(grammar::program);
        match self.statement_list(None) {
            Ok(body) => Ok(Program { body }),
            Err(error) => Err(error),
        }
    }

    /// Parses `string` from its first character to its last: the syntax tree
    /// of the whole text, or the first failure. What the parser held before
    /// has no part in the result.
    #[verifier::spinoff_prover]
    pub fn parse(&mut self, string: &str) -> (parsed: Result<Program, ParseError>)
        ensures
            viewed(parsed) == grammar::parse_text(string@),
            final(self).string@ == string@,
            final(self).tokenizer.string@ == string@,
            parsed.is_ok() ==> final(self).lookahead.is_none(),
    {
        self.tokenizer.init(string);
        let ghost input = lexemes(string@, 0);
        proof {
            lemma_scan_bounds(string@, 0);
        }
        let parsed = match self.tokenizer.next() {
            Ok(token) => {
                self.lookahead = token;
                proof {
                    reveal(Parser::stream);
                    assert(self.stream() =~= input);
                    assert(!(input.len() > 0 && input[0] is Bad));
                }
                let parsed = self.program();
                proof {
                    if parsed.is_ok() && self.lookahead.is_some() {
                        assert(self.stream()[0] is Token);
                    }
                }
                parsed
            },
            Err(error) => {
                proof {
                    assert(input.len() > 0 && input[0] == Lexeme::Bad(error));
                }
                Err(error)
            },
        };
        self.string = String::from_str(string);
        parsed
    }
}

} // verus!
