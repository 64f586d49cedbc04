use dz6::util::{parse_goto_expression, ParseIntError};

#[test]
fn parse_expr_test() {
    assert_eq!(Ok(255), parse_goto_expression("ff"));
    assert_eq!(Ok(16), parse_goto_expression("10"));
    assert_eq!(Ok(255), parse_goto_expression("ff"));
    assert_eq!(Ok(255), parse_goto_expression("255t"));
    // Errors
    assert!(parse_goto_expression("255th").is_err());
    assert!(parse_goto_expression("255ht").is_err());
    assert!(parse_goto_expression("ht").is_err());
    assert!(parse_goto_expression("h3").is_err());
    assert!(parse_goto_expression("-5").is_err());
    assert!(parse_goto_expression("4h4h").is_err());
}

#[test]
fn parse_expr_sign_and_errors() {
    assert_eq!(Ok(16), parse_goto_expression("+10"));
    assert_eq!(Ok(10), parse_goto_expression("+10t"));
    assert_eq!(Err(ParseIntError::Empty), parse_goto_expression(""));
    assert_eq!(Err(ParseIntError::Empty), parse_goto_expression("t"));
    assert_eq!(Err(ParseIntError::InvalidDigit), parse_goto_expression("+"));
    assert_eq!(Err(ParseIntError::InvalidDigit), parse_goto_expression("1 2"));
    assert_eq!(Err(ParseIntError::InvalidDigit), parse_goto_expression("\u{e9}"));
    assert_eq!(
        Err(ParseIntError::Overflow),
        parse_goto_expression("100000000000000000000000000000000")
    );
    assert_eq!(Ok(usize::MAX), parse_goto_expression(&format!("{:x}", usize::MAX)));
    assert_eq!(Ok(usize::MAX), parse_goto_expression(&format!("{}t", usize::MAX)));
}
