use letter_rdp_rust::{BinaryExpression, BooleanLiteral, Expression, ExpressionStatement, Identifier, init, LeftHandSideExpression, Literal, NumericLiteral, Program, Statement};

#[test]
fn handles_equality_expression() {
    let mut parser = init();

    let result = parser.parse("x > 0 == true;");
    let result = result.expect("the text parses");

    assert_eq!(
        result,
        Program {
            body: vec![Statement::ExpressionStatement(ExpressionStatement {
                expression: Expression::BinaryExpression(BinaryExpression {
                    operator: String::from("=="),
                    left: Box::new(Expression::BinaryExpression(BinaryExpression {
                        operator: String::from(">"),
                        left: Box::new(Expression::LeftHandSideExpression(
                            LeftHandSideExpression::Identifier(Identifier {
                                name: String::from("x")
                            })
                        )),
                        right: Box::new(Expression::Literal(Literal::NumericLiteral(
                            NumericLiteral {
                                value: 0
                            }
                        )))
                    })),
                    right: Box::new(Expression::Literal(Literal::BooleanLiteral(
                        BooleanLiteral {
                            value: true
                        }
                    )))
                })
            })]
        }
    )
}

#[test]
fn handles_negation_expression() {
    let mut parser = init();

    let result = parser.parse("x > 0 != true;");
    let result = result.expect("the text parses");

    assert_eq!(
        result,
        Program {
            body: vec![Statement::ExpressionStatement(ExpressionStatement {
                expression: Expression::BinaryExpression(BinaryExpression {
                    operator: String::from("!="),
                    left: Box::new(Expression::BinaryExpression(BinaryExpression {
                        operator: String::from(">"),
                        left: Box::new(Expression::LeftHandSideExpression(
                            LeftHandSideExpression::Identifier(Identifier {
                                name: String::from("x")
                            })
                        )),
                        right: Box::new(Expression::Literal(Literal::NumericLiteral(
                            NumericLiteral {
                                value: 0
                            }
                        )))
                    })),
                    right: Box::new(Expression::Literal(Literal::BooleanLiteral(
                        BooleanLiteral {
                            value: true
                        }
                    )))
                })
            })]
        }
    )
}
