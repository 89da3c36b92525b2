use chart_of_accounts::account::{AccountName, AccountNameParseError, AccountSpec, DebitOrCredit};
use chart_of_accounts::code::{
    AccountCode, AccountCodeError, AccountCodeParseError, AccountCodeSection,
    AccountCodeSectionParseError,
};

fn code(s: &str) -> AccountCode {
    s.parse::<AccountCode>().unwrap()
}

#[test]
fn chart_level() {
    let parent = "11".parse::<AccountCodeSection>().unwrap();
    let sub = "01".parse::<AccountCodeSection>().unwrap();
    let child = "0201".parse::<AccountCodeSection>().unwrap();

    let account_code = AccountCode::new(vec![parent.clone()]);
    assert_eq!(account_code.chart_level(), 0);

    let account_code = AccountCode::new(vec![parent.clone(), sub.clone()]);
    assert_eq!(account_code.chart_level(), 1);

    let account_code = AccountCode::new(vec![parent, sub, child]);
    assert_eq!(account_code.chart_level(), 2);
}

#[test]
fn is_equivalent_to_str() {
    let parent = "11".parse::<AccountCodeSection>().unwrap();
    let sub = "01".parse::<AccountCodeSection>().unwrap();
    let child = "0201".parse::<AccountCodeSection>().unwrap();

    let account_code = AccountCode::new(vec![parent, sub, child]);
    assert!(account_code.is_equivalent_to_str("11010201"));
    assert!(!account_code.is_equivalent_to_str("110102010"));
}

#[test]
fn errors_for_new_spec_if_invalid_parent() {
    let parent = "10".parse::<AccountCode>().unwrap();
    let child = "11".parse::<AccountCode>().unwrap();
    let new_spec = AccountSpec::try_new(
        Some(parent),
        child.sections().to_vec(),
        "spec".parse().unwrap(),
        Default::default(),
    );
    assert!(matches!(new_spec, Err(AccountCodeError::InvalidParent)));
}

#[test]
fn not_parent_when_child_sections_empty() {
    let parent = "10".parse::<AccountCode>().unwrap();
    let child = AccountCode::new(vec![]);
    assert_eq!(parent.is_parent_of(child.sections()), false);
}

#[test]
fn not_parent_when_parent_sections_empty() {
    let parent = AccountCode::new(vec![]);
    let child = "10".parse::<AccountCode>().unwrap();
    assert_eq!(parent.is_parent_of(child.sections()), false);
}

#[test]
fn is_parent_when_prefix_matches_in_first_section() {
    let parent = "1".parse::<AccountCode>().unwrap();
    let child = "11".parse::<AccountCode>().unwrap();
    assert_eq!(parent.is_parent_of(child.sections()), true);
}

#[test]
fn not_parent_when_prefix_does_not_match_in_first_section() {
    let parent = "10".parse::<AccountCode>().unwrap();
    let child = "11".parse::<AccountCode>().unwrap();
    assert_eq!(parent.is_parent_of(child.sections()), false);
}

#[test]
fn is_parent_when_child_has_more_sections_than_parent() {
    let parent = "10".parse::<AccountCode>().unwrap();
    let child = "10.20".parse::<AccountCode>().unwrap();
    assert_eq!(parent.is_parent_of(child.sections()), true);

    let parent = "10.20".parse::<AccountCode>().unwrap();
    let child = "10.20.0201".parse::<AccountCode>().unwrap();
    assert_eq!(parent.is_parent_of(child.sections()), true);
}

#[test]
fn not_parent_when_child_has_more_sections_than_parent() {
    let parent = "10.20".parse::<AccountCode>().unwrap();
    let child = "10".parse::<AccountCode>().unwrap();
    assert_eq!(parent.is_parent_of(child.sections()), false);
}

#[test]
fn not_parent_when_sections_equal() {
    let parent = "10".parse::<AccountCode>().unwrap();
    let child = "10".parse::<AccountCode>().unwrap();
    assert_eq!(parent.is_parent_of(child.sections()), false);
}

#[test]
fn not_parent_when_parent_code_longer_but_prefixed() {
    let parent = "100".parse::<AccountCode>().unwrap();
    let child = "10".parse::<AccountCode>().unwrap();
    assert_eq!(parent.is_parent_of(child.sections()), false);
}

#[test]
fn not_parent_when_parent_code_longer_but_prefixed_in_second_section() {
    let parent = "1.23".parse::<AccountCode>().unwrap();
    let child = "1.2".parse::<AccountCode>().unwrap();
    assert_eq!(parent.is_parent_of(child.sections()), false);
}

#[test]
fn not_parent_when_prefix_mismatch_in_second_section() {
    let parent = "1.23".parse::<AccountCode>().unwrap();
    let child = "1.20".parse::<AccountCode>().unwrap();
    assert_eq!(parent.is_parent_of(child.sections()), false);
}

#[test]
fn ok_when_no_parent() {
    let child = "10.20".parse::<AccountCode>().unwrap();
    assert!(child.check_valid_parent(None).is_ok());
}

#[test]
fn ok_when_is_parent() {
    let parent = "1".parse::<AccountCode>().unwrap();
    let child = "11".parse::<AccountCode>().unwrap();
    assert!(child.check_valid_parent(Some(parent)).is_ok());
}

#[test]
fn err_when_not_parent() {
    let parent = "10".parse::<AccountCode>().unwrap();
    let child = "11".parse::<AccountCode>().unwrap();
    assert!(matches!(
        child.check_valid_parent(Some(parent)),
        Err(AccountCodeError::InvalidParent)
    ));
}

#[test]
fn parent_extends_last_section_or_adds_sections() {
    assert!(code("1").is_parent_of(code("12").sections()));
    assert!(code("1.2").is_parent_of(code("1.23").sections()));
    assert!(code("1.2").is_parent_of(code("1.2.3").sections()));
    assert!(!code("1.2").is_parent_of(code("1.2").sections()));
    assert!(!AccountCode::new(vec![]).is_parent_of(AccountCode::new(vec![]).sections()));
}

#[test]
fn parse_then_display_round_trips() {
    for s in ["1", "1.1", "10.20.0201", "01.002", "1..2"] {
        match AccountCode::parse(s) {
            Ok(c) => assert_eq!(c.to_string(), s),
            Err(_) => assert_eq!(s, "1..2"),
        }
    }
}

#[test]
fn parse_drops_uuid_prefix() {
    let c = code("6107522e-11e6-4b03-9056-516dfbbee36a.1.2");
    assert_eq!(c.len_sections(), 2);
    assert_eq!(c.to_string(), "1.2");
}

#[test]
fn parse_errors() {
    assert_eq!(AccountCode::parse(""), Err(AccountCodeParseError::Empty));
    assert_eq!(
        AccountCode::parse("1..2"),
        Err(AccountCodeParseError::AccountCodeSectionParseError(
            AccountCodeSectionParseError::Empty
        ))
    );
    assert_eq!(
        AccountCode::parse("1.a"),
        Err(AccountCodeParseError::AccountCodeSectionParseError(
            AccountCodeSectionParseError::NonDigit
        ))
    );
    assert!(matches!(
        "".parse::<AccountCodeSection>(),
        Err(AccountCodeSectionParseError::Empty)
    ));
    assert!(matches!(
        "1x".parse::<AccountCodeSection>(),
        Err(AccountCodeSectionParseError::NonDigit)
    ));
}

#[test]
fn sections_compare_as_strings() {
    assert_ne!(code("1"), code("01"));
    assert_eq!(code("01.2"), code("01.2"));
    assert_eq!(code("1.2").section(1).unwrap().as_str(), "2");
    assert!(code("1.2").section(2).is_none());
}

#[test]
fn account_names_are_trimmed_and_checked() {
    assert_eq!(AccountName::parse("  Cash  ").unwrap().as_str(), "Cash");
    assert_eq!(AccountName::parse("   ").unwrap_err(), AccountNameParseError::Empty);
    assert_eq!(
        AccountName::parse("1Cash").unwrap_err(),
        AccountNameParseError::StartsWithDigit
    );
}

#[test]
fn spec_with_valid_parent() {
    let spec = AccountSpec::try_new(
        Some(code("1")),
        code("1.1").sections().to_vec(),
        "Current Assets".parse().unwrap(),
        DebitOrCredit::Debit,
    )
    .unwrap();
    assert!(spec.has_parent());
    assert_eq!(spec.code.to_string(), "1.1");
    assert_eq!(DebitOrCredit::default(), DebitOrCredit::Credit);
}
