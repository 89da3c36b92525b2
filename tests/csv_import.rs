use chart_of_accounts::account::{AccountNameParseError, DebitOrCredit};
use chart_of_accounts::code::AccountCodeParseError;
use chart_of_accounts::csv::{parse_row, CsvParseError, CsvParser};

#[test]
fn parses_rows_in_file_order() {
    let specs = CsvParser::new("1,,,Assets\n1.1,1,,Current Assets\n\n1.1.1,1.1,,Cash,debit\n".to_string())
        .account_specs()
        .unwrap();
    assert_eq!(specs.len(), 3);
    assert_eq!(specs[0].code.to_string(), "1");
    assert!(specs[0].parent.is_none());
    assert_eq!(specs[1].parent.as_ref().unwrap().to_string(), "1");
    assert_eq!(specs[1].name.as_str(), "Current Assets");
    assert_eq!(specs[2].normal_balance_type, DebitOrCredit::Debit);
    assert_eq!(specs[0].normal_balance_type, DebitOrCredit::Credit);
}

#[test]
fn row_errors() {
    assert_eq!(parse_row("1,,Assets").unwrap_err(), CsvParseError::NotEnoughFields);
    assert_eq!(
        parse_row("x,,,Assets").unwrap_err(),
        CsvParseError::InvalidCode(AccountCodeParseError::AccountCodeSectionParseError(
            chart_of_accounts::code::AccountCodeSectionParseError::NonDigit
        ))
    );
    assert!(matches!(
        parse_row("1.1,y,,Assets").unwrap_err(),
        CsvParseError::InvalidParentCode(_)
    ));
    assert_eq!(
        parse_row("1,,,").unwrap_err(),
        CsvParseError::InvalidName(AccountNameParseError::Empty)
    );
    assert_eq!(parse_row("1,,,Assets,sideways").unwrap_err(), CsvParseError::InvalidBalance);
    assert_eq!(parse_row("2.1,1,,Assets").unwrap_err(), CsvParseError::InvalidParent);
}

#[test]
fn first_bad_line_stops_parse() {
    let r = CsvParser::new("1,,,Assets\nbad\n1.1,1,,Current".to_string()).account_specs();
    assert_eq!(r.unwrap_err(), CsvParseError::NotEnoughFields);
}
