use letter_rdp_rust::{
    init, BlockStatement, Expression, ExpressionStatement, Literal, NumericLiteral, Program,
    Statement, StringLiteral,
};

fn number(value: i64) -> Statement {
    Statement::ExpressionStatement(ExpressionStatement {
        expression: Expression::Literal(Literal::NumericLiteral(NumericLiteral { value })),
    })
}

fn string(value: &str) -> Statement {
    Statement::ExpressionStatement(ExpressionStatement {
        expression: Expression::Literal(Literal::StringLiteral(StringLiteral {
            value: String::from(value),
        })),
    })
}

#[test]
fn handles_block() {
    let mut parser = init();

    let result = parser.parse(
        "{
                \"hello\";
                42;
            }
            ",
    );

    assert_eq!(
        result,
        Ok(Program {
            body: vec![Statement::BlockStatement(BlockStatement {
                body: vec![string("hello"), number(42)]
            })]
        })
    )
}

#[test]
fn handles_empty_block() {
    let mut parser = init();

    let result = parser.parse("{}");

    assert_eq!(
        result,
        Ok(Program {
            body: vec![Statement::BlockStatement(BlockStatement { body: vec![] })]
        })
    )
}

#[test]
fn handles_nested_blocks() {
    let mut parser = init();

    let result = parser.parse(
        "{

                {
                    'hello';
                    42;
                }

        }",
    );

    assert_eq!(
        result,
        Ok(Program {
            body: vec![Statement::BlockStatement(BlockStatement {
                body: vec![Statement::BlockStatement(BlockStatement {
                    body: vec![string("hello"), number(42)]
                })]
            })]
        })
    )
}

#[test]
fn nested_blocks_keep_the_order_of_their_statements() {
    let mut parser = init();

    let result = parser.parse("{ { 'a'; 1; } }");

    assert_eq!(
        result,
        Ok(Program {
            body: vec![Statement::BlockStatement(BlockStatement {
                body: vec![Statement::BlockStatement(BlockStatement {
                    body: vec![string("a"), number(1)]
                })]
            })]
        })
    )
}
