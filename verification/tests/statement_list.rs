use letter_rdp_rust::{
    init, Expression, ExpressionStatement, Literal, NumericLiteral, Program, Statement,
    StringLiteral,
};

#[test]
fn handles_multiple_statements() {
    let mut parser = init();

    let result = parser.parse(
        r##"  
        1;
        "hello";
        "##,
    );

    assert_eq!(
        result,
        Ok(Program {
            body: vec![
                Statement::ExpressionStatement(ExpressionStatement {
                    expression: Expression::Literal(Literal::NumericLiteral(NumericLiteral {
                        value: 1
                    }))
                }),
                Statement::ExpressionStatement(ExpressionStatement {
                    expression: Expression::Literal(Literal::StringLiteral(StringLiteral {
                        value: String::from("hello")
                    }))
                })
            ]
        })
    )
}
