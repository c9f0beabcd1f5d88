use letter_rdp_rust::{init, Program, Statement};

#[test]
fn handles_empty_statement() {
    let mut parser = init();

    let result = parser.parse(";");

    assert_eq!(result, Ok(Program { body: vec![Statement::EmptyStatement] }))
}

#[test]
fn handles_several_empty_statements() {
    let mut parser = init();

    let result = parser.parse(";;");

    assert_eq!(
        result,
        Ok(Program { body: vec![Statement::EmptyStatement, Statement::EmptyStatement] })
    )
}
