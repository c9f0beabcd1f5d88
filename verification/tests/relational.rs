use letter_rdp_rust::{BinaryExpression, Expression, ExpressionStatement, Identifier, init, LeftHandSideExpression, Literal, NumericLiteral, Program, Statement};

#[test]
fn handles_relational_gt_expression() {
    let mut parser = init();

    let result = parser.parse("x > 0;");
    let result = result.expect("the text parses");

    assert_eq!(
        result,
        Program {
            body: vec![Statement::ExpressionStatement(ExpressionStatement {
                expression: Expression::BinaryExpression(BinaryExpression {
                    operator: String::from(">"),
                    left: Box::new(Expression::LeftHandSideExpression(
                        LeftHandSideExpression::Identifier(Identifier {
                            name: String::from("x"),
                        })
                    )),
                    right: Box::new(Expression::Literal(Literal::NumericLiteral(
                        NumericLiteral {
                            value: 0
                        }
                    )))
                })
            })]
        }
    )
}

#[test]
fn handles_relational_gte_expression() {
    let mut parser = init();

    let result = parser.parse("x >= 0;");
    let result = result.expect("the text parses");

    assert_eq!(
        result,
        Program {
            body: vec![Statement::ExpressionStatement(ExpressionStatement {
                expression: Expression::BinaryExpression(BinaryExpression {
                    operator: String::from(">="),
                    left: Box::new(Expression::LeftHandSideExpression(
                        LeftHandSideExpression::Identifier(Identifier {
                            name: String::from("x"),
                        })
                    )),
                    right: Box::new(Expression::Literal(Literal::NumericLiteral(
                        NumericLiteral {
                            value: 0
                        }
                    )))
                })
            })]
        }
    )
}
