//! Tokens, syntax-tree nodes, the failure type, and the mathematical model
//! of each of them.

use vstd::prelude::*;

verus! {

/// The closed set of lexical classes.
#[derive(Clone, Copy, Debug, PartialEq, Eq, Structural)]
pub enum TokenKind {
    Whitespace,
    Comment,
    Semicolon,
    OpenBrace,
    CloseBrace,
    OpenParen,
    CloseParen,
    Comma,
    Let,
    If,
    Else,
    True,
    False,
    Null,
    Number,
    Identifier,
    String,
    SimpleAssign,
    ComplexAssign,
    AdditiveOperator,
    MultiplicativeOperator,
    RelationalOperator,
    EqualityOperator,
    LogicalAnd,
    LogicalOr,
}

/// Every way in which scanning or parsing can fail.
#[derive(Clone, Copy, Debug, PartialEq, Eq)]
pub enum ParseError {
    /// No lexical pattern matches at `position` (counted in characters).
    UnexpectedCharacter { character: char, position: usize },
    /// A token of kind `expected` was needed and the input had ended.
    UnexpectedEndOfInput { expected: TokenKind },
    /// A token of kind `expected` was needed and one of kind `found` stood there.
    UnexpectedToken { found: TokenKind, expected: TokenKind },
    /// A literal was asked for where the next token is of a kind that starts none.
    UnsupportedTokenType { kind: TokenKind },
    /// The left side of an assignment is not a bare identifier.
    InvalidAssignmentTarget,
    /// The text of a number token is not a decimal number that fits in 64 signed bits.
    InvalidNumber,
}

/// What a token is: its class and its text.
pub struct TokenModel {
    pub kind: TokenKind,
    pub text: Seq<char>,
}

/// A classified piece of the source text. For a string literal `value` holds
/// the text between the quotes.
#[derive(Debug, Clone, PartialEq)]
pub struct Token {
    pub typ: TokenKind,
    pub value: String,
}

impl View for Token {
    type V = TokenModel;

    open spec fn view(&self) -> TokenModel {
        TokenModel { kind: self.typ, text: self.value@ }
    }
}

pub enum LiteralModel {
    Numeric(int),
    Text(Seq<char>),
    Boolean(bool),
    Null,
}

pub enum ExpressionModel {
    Literal(LiteralModel),
    Identifier(Seq<char>),
    Binary { operator: Seq<char>, left: Box<ExpressionModel>, right: Box<ExpressionModel> },
    Logical { operator: Seq<char>, left: Box<ExpressionModel>, right: Box<ExpressionModel> },
    Assignment { operator: Seq<char>, target: Seq<char>, value: Box<ExpressionModel> },
}

pub struct DeclarationModel {
    pub id: Seq<char>,
    pub init: Option<ExpressionModel>,
}

pub enum StatementModel {
    Expression(ExpressionModel),
    Block(Seq<StatementModel>),
    Empty,
    Variable(Seq<DeclarationModel>),
    If { test: ExpressionModel, consequent: Box<StatementModel>, alternate: Option<Box<StatementModel>> },
}

pub struct ProgramModel {
    pub body: Seq<StatementModel>,
}

#[derive(Debug, Clone, PartialEq)]
pub struct NumericLiteral {
    pub value: i64,
}

impl View for NumericLiteral {
    type V = LiteralModel;

    open spec fn view(&self) -> LiteralModel {
        LiteralModel::Numeric(self.value as int)
    }
}

#[derive(Debug, Clone, PartialEq)]
pub struct StringLiteral {
    pub value: String,
}

impl View for StringLiteral {
    type V = LiteralModel;

    open spec fn view(&self) -> LiteralModel {
        LiteralModel::Text(self.value@)
    }
}

#[derive(Debug, Clone, PartialEq)]
pub struct BooleanLiteral {
    pub value: bool,
}

impl View for BooleanLiteral {
    type V = LiteralModel;

    open spec fn view(&self) -> LiteralModel {
        LiteralModel::Boolean(self.value)
    }
}

#[derive(Debug, Clone, PartialEq)]
pub struct NullLiteral {}

impl View for NullLiteral {
    type V = LiteralModel;

    open spec fn view(&self) -> LiteralModel {
        LiteralModel::Null
    }
}

#[derive(Debug, Clone, PartialEq)]
pub enum Literal {
    NumericLiteral(NumericLiteral),
    StringLiteral(StringLiteral),
    BooleanLiteral(BooleanLiteral),
    NullLiteral(NullLiteral),
}

impl View for Literal {
    type V = LiteralModel;

    open spec fn view(&self) -> LiteralModel {
        match self {
            Literal::NumericLiteral(n) => n@,
            Literal::StringLiteral(s) => s@,
            Literal::BooleanLiteral(b) => b@,
            Literal::NullLiteral(n) => n@,
        }
    }
}

#[derive(Debug, Clone, PartialEq)]
pub struct Identifier {
    pub name: String,
}

impl View for Identifier {
    type V = Seq<char>;

    open spec fn view(&self) -> Seq<char> {
        self.name@
    }
}

#[derive(Debug, Clone, PartialEq)]
pub enum LeftHandSideExpression {
    Identifier(Identifier),
}

impl View for LeftHandSideExpression {
    type V = ExpressionModel;

    open spec fn view(&self) -> ExpressionModel {
        match self {
            LeftHandSideExpression::Identifier(i) => ExpressionModel::Identifier(i@),
        }
    }
}

#[derive(Debug, PartialEq)]
pub struct BinaryExpression {
    pub operator: String,
    pub left: Box<Expression>,
    pub right: Box<Expression>,
}

#[derive(Debug, PartialEq)]
pub struct LogicalExpression {
    pub operator: String,
    pub left: Box<Expression>,
    pub right: Box<Expression>,
}

#[derive(Debug, PartialEq)]
pub struct AssignmentExpression {
    pub operator: String,
    pub left: Identifier,
    pub right: Box<Expression>,
}

#[derive(Debug, PartialEq)]
pub enum Expression {
    Literal(Literal),
    BinaryExpression(BinaryExpression),
    LogicalExpression(LogicalExpression),
    AssignmentExpression(AssignmentExpression),
    LeftHandSideExpression(LeftHandSideExpression),
}

/// The tree that an expression stands for.
pub open spec fn expression_model(e: Expression) -> ExpressionModel
    decreases e,
{
    match e {
        Expression::Literal(l) => ExpressionModel::Literal(l@),
        Expression::BinaryExpression(b) => ExpressionModel::Binary {
            operator: b.operator@,
            left: Box::new(expression_model(*b.left)),
            right: Box::new(expression_model(*b.right)),
        },
        Expression::LogicalExpression(b) => ExpressionModel::Logical {
            operator: b.operator@,
            left: Box::new(expression_model(*b.left)),
            right: Box::new(expression_model(*b.right)),
        },
        Expression::AssignmentExpression(a) => ExpressionModel::Assignment {
            operator: a.operator@,
            target: a.left.name@,
            value: Box::new(expression_model(*a.right)),
        },
        Expression::LeftHandSideExpression(l) => l@,
    }
}

impl View for Expression {
    type V = ExpressionModel;

    open spec fn view(&self) -> ExpressionModel {
        expression_model(*self)
    }
}

/// The condition of an `if`: an expression of any form.
#[derive(Debug, PartialEq)]
pub enum Test {
    Literal(Literal),
    Identifier(Identifier),
    BinaryExpression(BinaryExpression),
    LogicalExpression(LogicalExpression),
    AssignmentExpression(AssignmentExpression),
}

impl View for Test {
    type V = ExpressionModel;

    open spec fn view(&self) -> ExpressionModel {
        match self {
            Test::Literal(l) => ExpressionModel::Literal(l@),
            Test::Identifier(i) => ExpressionModel::Identifier(i.name@),
            Test::BinaryExpression(b) => Expression::BinaryExpression(*b)@,
            Test::LogicalExpression(b) => Expression::LogicalExpression(*b)@,
            Test::AssignmentExpression(a) => Expression::AssignmentExpression(*a)@,
        }
    }
}

impl Test {
    /// The same expression, as the condition of an `if`.
    pub fn from_expression(expression: Expression) -> (test: Test)
        ensures
            test@ == expression@,
    {
        match expression {
            Expression::Literal(l) => Test::Literal(l),
            Expression::BinaryExpression(b) => Test::BinaryExpression(b),
            Expression::LogicalExpression(b) => Test::LogicalExpression(b),
            Expression::AssignmentExpression(a) => Test::AssignmentExpression(a),
            Expression::LeftHandSideExpression(l) => match l {
                LeftHandSideExpression::Identifier(i) => Test::Identifier(i),
            },
        }
    }
}

/// The value that a declaration gives its variable: an expression of any form.
#[derive(Debug, PartialEq)]
pub enum VariableInitializer {
    AssignmentExpression(AssignmentExpression),
    Literal(Literal),
    Identifier(Identifier),
    BinaryExpression(BinaryExpression),
    LogicalExpression(LogicalExpression),
}

impl View for VariableInitializer {
    type V = ExpressionModel;

    open spec fn view(&self) -> ExpressionModel {
        match self {
            VariableInitializer::Literal(l) => ExpressionModel::Literal(l@),
            VariableInitializer::Identifier(i) => ExpressionModel::Identifier(i.name@),
            VariableInitializer::BinaryExpression(b) => Expression::BinaryExpression(*b)@,
            VariableInitializer::LogicalExpression(b) => Expression::LogicalExpression(*b)@,
            VariableInitializer::AssignmentExpression(a) => Expression::AssignmentExpression(*a)@,
        }
    }
}

impl VariableInitializer {
    /// The same expression, as the initial value of a variable.
    pub fn from_expression(expression: Expression) -> (init: VariableInitializer)
        ensures
            init@ == expression@,
    {
        match expression {
            Expression::Literal(l) => VariableInitializer::Literal(l),
            Expression::BinaryExpression(b) => VariableInitializer::BinaryExpression(b),
            Expression::LogicalExpression(b) => VariableInitializer::LogicalExpression(b),
            Expression::AssignmentExpression(a) => VariableInitializer::AssignmentExpression(a),
            Expression::LeftHandSideExpression(l) => match l {
                LeftHandSideExpression::Identifier(i) => VariableInitializer::Identifier(i),
            },
        }
    }
}

#[derive(Debug, PartialEq)]
pub struct VariableDeclaration {
    pub id: Identifier,
    pub init: Option<VariableInitializer>,
}

impl View for VariableDeclaration {
    type V = DeclarationModel;

    open spec fn view(&self) -> DeclarationModel {
        DeclarationModel {
            id: self.id.name@,
            init: match self.init {
                Some(i) => Some(i@),
                None => None,
            },
        }
    }
}

#[derive(Debug, PartialEq)]
pub struct VariableStatement {
    pub declarations: Vec<VariableDeclaration>,
}

#[derive(Debug, PartialEq)]
pub struct ExpressionStatement {
    pub expression: Expression,
}

#[derive(Debug, PartialEq)]
pub struct BlockStatement {
    pub body: Vec<Statement>,
}

#[derive(Debug, PartialEq)]
pub struct IfStatement {
    pub test: Test,
    pub consequent: Box<Statement>,
    pub alternate: Option<Box<Statement>>,
}

#[derive(Debug, PartialEq)]
pub enum Statement {
    ExpressionStatement(ExpressionStatement),
    BlockStatement(BlockStatement),
    VariableStatement(VariableStatement),
    IfStatement(IfStatement),
    EmptyStatement,
}

/// The declarations of a list, in order.
pub open spec fn declaration_models(list: Seq<VariableDeclaration>) -> Seq<DeclarationModel> {
    Seq::new(list.len(), |i: int| list[i]@)
}

/// The tree that a statement stands for.
pub open spec fn statement_model(s: Statement) -> StatementModel
    decreases s,
{
    match s {
        Statement::ExpressionStatement(e) => StatementModel::Expression(e.expression@),
        Statement::BlockStatement(b) => StatementModel::Block(
            Seq::new(
                b.body@.len(),
                |i: int|
                    if 0 <= i < b.body@.len() {
                        statement_model(b.body@[i])
                    } else {
                        StatementModel::Empty
                    },
            ),
        ),
        Statement::VariableStatement(v) => StatementModel::Variable(
            declaration_models(v.declarations@),
        ),
        Statement::IfStatement(i) => StatementModel::If {
            test: i.test@,
            consequent: Box::new(statement_model(*i.consequent)),
            alternate: match i.alternate {
                Some(a) => Some(Box::new(statement_model(*a))),
                None => None,
            },
        },
        Statement::EmptyStatement => StatementModel::Empty,
    }
}

impl View for Statement {
    type V = StatementModel;

    open spec fn view(&self) -> StatementModel {
        statement_model(*self)
    }
}

/// The statements of a list, in order.
pub open spec fn statement_models(list: Seq<Statement>) -> Seq<StatementModel> {
    Seq::new(list.len(), |i: int| list[i]@)
}

/// A block stands for the statements of its body, in order.
pub proof fn lemma_block_model(block: BlockStatement)
    ensures
        Statement::BlockStatement(block)@ == StatementModel::Block(statement_models(block.body@)),
{
    let model = statement_model(Statement::BlockStatement(block));
    assert(model is Block);
    assert(model->Block_0 =~= statement_models(block.body@));
}

/// The root of a syntax tree.
#[derive(Debug, PartialEq)]
pub struct Program {
    pub body: Vec<Statement>,
}

impl View for Program {
    type V = ProgramModel;

    open spec fn view(&self) -> ProgramModel {
        ProgramModel { body: statement_models(self.body@) }
    }
}

} // verus!
