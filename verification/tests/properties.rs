use letter_rdp_rust::expressions::{combine, operator_kind};
use letter_rdp_rust::grammar::Level;
use letter_rdp_rust::{
    init, AssignmentExpression, BinaryExpression, BooleanLiteral, Expression,
    ExpressionStatement, Identifier, IfStatement, LeftHandSideExpression, Literal,
    LogicalExpression, NullLiteral, NumericLiteral, Parser, Program, Statement, Test, TokenKind,
    VariableDeclaration, VariableInitializer, VariableStatement,
};

fn number(value: i64) -> Expression {
    Expression::Literal(Literal::NumericLiteral(NumericLiteral { value }))
}

fn name(text: &str) -> Expression {
    Expression::LeftHandSideExpression(LeftHandSideExpression::Identifier(Identifier {
        name: String::from(text),
    }))
}

fn binary(operator: &str, left: Expression, right: Expression) -> BinaryExpression {
    BinaryExpression {
        operator: String::from(operator),
        left: Box::new(left),
        right: Box::new(right),
    }
}

fn one_expression(expression: Expression) -> Program {
    Program { body: vec![Statement::ExpressionStatement(ExpressionStatement { expression })] }
}

#[test]
fn parsing_twice_gives_equal_trees() {
    let text = "let a = 1, b; if (a > b) { a = a * (b + 2); } else b = 'x';";

    let first = init().parse(text);
    let second = Parser::new().parse(text);

    assert!(first.is_ok());
    assert_eq!(first, second);
}

#[test]
fn a_parser_that_is_used_again_starts_afresh() {
    let mut parser = init();
    let first = parser.parse("1 + 2;");
    let failed = parser.parse("1 +");
    let again = parser.parse("1 + 2;");

    assert!(failed.is_err());
    assert_eq!(first, again);
    assert_eq!(first, Ok(one_expression(Expression::BinaryExpression(binary("+", number(1), number(2))))));
    assert_eq!(parser.string, "1 + 2;");
    assert_eq!(parser.lookahead, None);
}

#[test]
fn a_program_that_parses_holds_a_statement() {
    for text in [";", "{}", "1;", "let x;", "if (x) ;"] {
        let tree = init().parse(text).expect("the text parses");
        assert_eq!(tree.body.len(), 1);
    }
}

#[test]
fn division_and_multiplication_group_to_the_left() {
    assert_eq!(
        init().parse("8 / 4 * 2;"),
        Ok(one_expression(Expression::BinaryExpression(binary(
            "*",
            Expression::BinaryExpression(binary("/", number(8), number(4))),
            number(2)
        ))))
    );
}

#[test]
fn logical_or_binds_looser_than_logical_and() {
    let and = LogicalExpression {
        operator: String::from("&&"),
        left: Box::new(name("b")),
        right: Box::new(name("c")),
    };

    assert_eq!(
        init().parse("a || b && c;"),
        Ok(one_expression(Expression::LogicalExpression(LogicalExpression {
            operator: String::from("||"),
            left: Box::new(name("a")),
            right: Box::new(Expression::LogicalExpression(and)),
        })))
    );
}

#[test]
fn compound_assignment_keeps_its_operator() {
    assert_eq!(
        init().parse("x += y -= 1;"),
        Ok(one_expression(Expression::AssignmentExpression(AssignmentExpression {
            operator: String::from("+="),
            left: Identifier { name: String::from("x") },
            right: Box::new(Expression::AssignmentExpression(AssignmentExpression {
                operator: String::from("-="),
                left: Identifier { name: String::from("y") },
                right: Box::new(number(1)),
            })),
        })))
    );
}

#[test]
fn literals_of_every_kind() {
    assert_eq!(
        init().parse("true; false; null;"),
        Ok(Program {
            body: vec![
                Statement::ExpressionStatement(ExpressionStatement {
                    expression: Expression::Literal(Literal::BooleanLiteral(BooleanLiteral {
                        value: true
                    }))
                }),
                Statement::ExpressionStatement(ExpressionStatement {
                    expression: Expression::Literal(Literal::BooleanLiteral(BooleanLiteral {
                        value: false
                    }))
                }),
                Statement::ExpressionStatement(ExpressionStatement {
                    expression: Expression::Literal(Literal::NullLiteral(NullLiteral {}))
                }),
            ]
        })
    );
}

#[test]
fn the_condition_of_an_if_is_any_expression() {
    assert_eq!(
        init().parse("if (x > 0) ;"),
        Ok(Program {
            body: vec![Statement::IfStatement(IfStatement {
                test: Test::BinaryExpression(binary(">", name("x"), number(0))),
                consequent: Box::new(Statement::EmptyStatement),
                alternate: None,
            })]
        })
    );
}

#[test]
fn the_initial_value_of_a_variable_is_any_expression() {
    assert_eq!(
        init().parse("let x = y, z = 1 + 2;"),
        Ok(Program {
            body: vec![Statement::VariableStatement(VariableStatement {
                declarations: vec![
                    VariableDeclaration {
                        id: Identifier { name: String::from("x") },
                        init: Some(VariableInitializer::Identifier(Identifier {
                            name: String::from("y")
                        })),
                    },
                    VariableDeclaration {
                        id: Identifier { name: String::from("z") },
                        init: Some(VariableInitializer::BinaryExpression(binary(
                            "+",
                            number(1),
                            number(2)
                        ))),
                    },
                ]
            })]
        })
    );
}

#[test]
fn parentheses_alone_change_nothing() {
    assert_eq!(init().parse("((1));"), Ok(one_expression(number(1))));
}

#[test]
fn one_level_of_operators_reads_its_chain_and_stops() {
    let mut parser = init();
    parser.tokenizer.init("1 - 2 - 3 * 4 < 5");
    parser.lookahead = parser.tokenizer.next().expect("a token");

    let chain = parser.binary_chain(Level::Additive);

    assert_eq!(
        chain,
        Ok(Expression::BinaryExpression(binary(
            "-",
            Expression::BinaryExpression(binary("-", number(1), number(2))),
            Expression::BinaryExpression(binary("*", number(3), number(4)))
        )))
    );
    assert_eq!(parser.lookahead.map(|token| token.typ), Some(TokenKind::RelationalOperator));
}

#[test]
fn an_operand_is_a_chain_of_the_next_level() {
    let mut parser = init();
    parser.tokenizer.init("1 * 2 + 3");
    parser.lookahead = parser.tokenizer.next().expect("a token");

    assert_eq!(
        parser.operand(Level::Additive),
        Ok(Expression::BinaryExpression(binary("*", number(1), number(2))))
    );

    parser.tokenizer.init("1 * 2 + 3");
    parser.lookahead = parser.tokenizer.next().expect("a token");

    assert_eq!(parser.operand(Level::Multiplicative), Ok(number(1)));
}

#[test]
fn each_level_has_its_operator_and_its_node() {
    assert_eq!(operator_kind(Level::LogicalOr), TokenKind::LogicalOr);
    assert_eq!(operator_kind(Level::LogicalAnd), TokenKind::LogicalAnd);
    assert_eq!(operator_kind(Level::Equality), TokenKind::EqualityOperator);
    assert_eq!(operator_kind(Level::Relational), TokenKind::RelationalOperator);
    assert_eq!(operator_kind(Level::Additive), TokenKind::AdditiveOperator);
    assert_eq!(operator_kind(Level::Multiplicative), TokenKind::MultiplicativeOperator);
    assert_eq!(
        combine(Level::LogicalAnd, String::from("&&"), name("a"), name("b")),
        Expression::LogicalExpression(LogicalExpression {
            operator: String::from("&&"),
            left: Box::new(name("a")),
            right: Box::new(name("b")),
        })
    );
    assert_eq!(
        combine(Level::Equality, String::from("=="), name("a"), number(1)),
        Expression::BinaryExpression(binary("==", name("a"), number(1)))
    );
}
