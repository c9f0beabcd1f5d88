use letter_rdp_rust::{BinaryExpression, Expression, ExpressionStatement, init, Literal, NumericLiteral, Program, Statement};

#[test]
fn binary_expression() {
    let mut parser = init();

    let result = parser.parse("2+2;");
    let result = result.expect("the text parses");

    assert_eq!(
        result,
        Program {
            body: vec![Statement::ExpressionStatement(ExpressionStatement {
                expression: Expression::BinaryExpression(BinaryExpression {
                    operator: String::from("+"),
                    left: Box::new(Expression::Literal(Literal::NumericLiteral(
                        NumericLiteral {
                            value: 2
                        }
                    ))),
                    right: Box::new(Expression::Literal(Literal::NumericLiteral(
                        NumericLiteral {
                            value: 2
                        }
                    )))
                })
            })]
        }
    )
}

#[test]
fn chained_binary_expression() {
    let mut parser = init();

    let result = parser.parse("3 + 2 - 2;");
    let result = result.expect("the text parses");

    assert_eq!(
        result,
        Program {
            body: vec![Statement::ExpressionStatement(ExpressionStatement {
                expression: Expression::BinaryExpression(BinaryExpression {
                    operator: String::from("-"),
                    left: Box::new(Expression::BinaryExpression(BinaryExpression {
                        operator: String::from("+"),
                        left: Box::new(Expression::Literal(Literal::NumericLiteral(
                            NumericLiteral {
                                value: 3
                            }
                        ))),
                        right: Box::new(Expression::Literal(Literal::NumericLiteral(
                            NumericLiteral {
                                value: 2
                            }
                        )))
                    })),
                    right: Box::new(Expression::Literal(Literal::NumericLiteral(
                        NumericLiteral {
                            value: 2
                        }
                    )))
                })
            })]
        }
    )
}

#[test]
fn multiplicative_operator() {
    let mut parser = init();

    let result = parser.parse("2 * 2;");
    let result = result.expect("the text parses");

    assert_eq!(
        result,
        Program {
            body: vec![Statement::ExpressionStatement(ExpressionStatement {
                expression: Expression::BinaryExpression(BinaryExpression {
                    operator: String::from("*"),
                    right: Box::new(Expression::Literal(Literal::NumericLiteral(
                        NumericLiteral {
                            value: 2
                        }
                    ))),
                    left: Box::new(Expression::Literal(Literal::NumericLiteral(
                        NumericLiteral {
                            value: 2
                        }
                    )))
                })
            })]
        }
    )
}

#[test]
fn chained_binary_expression_with_multiplication() {
    let mut parser = init();

    let result = parser.parse("2 + 2 * 2;");
    let result = result.expect("the text parses");

    assert_eq!(
        result,
        Program {
            body: vec![Statement::ExpressionStatement(ExpressionStatement {
                expression: Expression::BinaryExpression(BinaryExpression {
                    operator: String::from("+"),
                    right: Box::new(Expression::BinaryExpression(BinaryExpression {
                        operator: String::from("*"),
                        left: Box::new(Expression::Literal(Literal::NumericLiteral(
                            NumericLiteral {
                                value: 2
                            }
                        ))),
                        right: Box::new(Expression::Literal(Literal::NumericLiteral(
                            NumericLiteral {
                                value: 2
                            }
                        )))
                    })),
                    left: Box::new(Expression::Literal(Literal::NumericLiteral(
                        NumericLiteral {
                            value: 2
                        }
                    )))
                })
            })]
        }
    )
}

#[test]
fn parenthesized_expression() {
    let mut parser = init();

    let result = parser.parse("(2 + 2) * 2;");
    let result = result.expect("the text parses");

    assert_eq!(
        result,
        Program {
            body: vec![Statement::ExpressionStatement(ExpressionStatement {
                expression: Expression::BinaryExpression(BinaryExpression {
                    operator: String::from("*"),
                    left: Box::new(Expression::BinaryExpression(BinaryExpression {
                        operator: String::from("+"),
                        left: Box::new(Expression::Literal(Literal::NumericLiteral(
                            NumericLiteral {
                                value: 2
                            }
                        ))),
                        right: Box::new(Expression::Literal(Literal::NumericLiteral(
                            NumericLiteral {
                                value: 2
                            }
                        )))
                    })),
                    right: Box::new(Expression::Literal(Literal::NumericLiteral(
                        NumericLiteral {
                            value: 2
                        }
                    )))
                })
            })]
        }
    )
}
