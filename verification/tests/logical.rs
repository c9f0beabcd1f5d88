use letter_rdp_rust::{BinaryExpression, Expression, ExpressionStatement, Identifier, init, LeftHandSideExpression, Literal, LogicalExpression, NumericLiteral, Program, Statement};

#[test]
fn handles_logical_and() {
    let mut parser = init();

    let result = parser.parse("x > 0 && y < 1;");
    let result = result.expect("the text parses");

    assert_eq!(
        result,
        Program {
            body: vec![Statement::ExpressionStatement(ExpressionStatement {
                expression: Expression::LogicalExpression(LogicalExpression {
                    operator: String::from("&&"),
                    left: Box::new(Expression::BinaryExpression(BinaryExpression {
                        operator: String::from(">"),
                        left: Box::new(Expression::LeftHandSideExpression(
                            LeftHandSideExpression::Identifier(Identifier {
                                name: String::from("x")
                            })
                        )),
                        right: Box::new(Expression::Literal(Literal::NumericLiteral(
                            NumericLiteral {
                                value: 0
                            }
                        )))
                    })),
                    right: Box::new(Expression::BinaryExpression(BinaryExpression {
                        operator: String::from("<"),
                        left: Box::new(Expression::LeftHandSideExpression(
                            LeftHandSideExpression::Identifier(Identifier {
                                name: String::from("y")
                            })
                        )),
                        right: Box::new(Expression::Literal(Literal::NumericLiteral(
                            NumericLiteral {
                                value: 1
                            }
                        )))
                    }))
                })
            })]
        }
    )
}

#[test]
fn handles_logical_or() {
    let mut parser = init();

    let result = parser.parse("x > 0 || y < 1;");
    let result = result.expect("the text parses");

    assert_eq!(
        result,
        Program {
            body: vec![Statement::ExpressionStatement(ExpressionStatement {
                expression: Expression::LogicalExpression(LogicalExpression {
                    operator: String::from("||"),
                    left: Box::new(Expression::BinaryExpression(BinaryExpression {
                        operator: String::from(">"),
                        left: Box::new(Expression::LeftHandSideExpression(
                            LeftHandSideExpression::Identifier(Identifier {
                                name: String::from("x")
                            })
                        )),
                        right: Box::new(Expression::Literal(Literal::NumericLiteral(
                            NumericLiteral {
                                value: 0
                            }
                        )))
                    })),
                    right: Box::new(Expression::BinaryExpression(BinaryExpression {
                        operator: String::from("<"),
                        left: Box::new(Expression::LeftHandSideExpression(
                            LeftHandSideExpression::Identifier(Identifier {
                                name: String::from("y")
                            })
                        )),
                        right: Box::new(Expression::Literal(Literal::NumericLiteral(
                            NumericLiteral {
                                value: 1
                            }
                        )))
                    }))
                })
            })]
        }
    )
}
