use chart_of_accounts::account::{AccountName, AccountSpec, DebitOrCredit};
use chart_of_accounts::chart::{
    AccountIdOrCode, AuditInfo, Chart, ChartEvent, ChartOfAccountsError, Idempotent,
    ManualAccountFromChart, NewChart,
};
use chart_of_accounts::code::{AccountCode, AccountCodeSection};
use chart_of_accounts::ids::{CalaAccountSetId, ChartId, LedgerAccountId};

fn dummy_audit_info() -> AuditInfo {
    AuditInfo {
        audit_entry_id: 1,
        sub: "sub".to_string(),
    }
}

fn chart_from(events: Vec<ChartEvent>) -> Chart {
    Chart::try_from_events(events).unwrap()
}

fn initial_events() -> Vec<ChartEvent> {
    vec![ChartEvent::Initialized {
        id: ChartId::new(),
        name: "Test Chart".to_string(),
        reference: "test-chart".to_string(),
        audit_info: dummy_audit_info(),
    }]
}

fn section(s: &str) -> AccountCodeSection {
    s.parse::<AccountCodeSection>().unwrap()
}

fn code(s: &str) -> AccountCode {
    s.parse::<AccountCode>().unwrap()
}

fn default_chart() -> (
    Chart,
    (CalaAccountSetId, CalaAccountSetId, CalaAccountSetId),
) {
    let mut chart = chart_from(initial_events());
    let (_, level_1_id) = chart
        .create_node(
            &AccountSpec::new(
                None,
                vec![section("1")],
                "Assets".parse::<AccountName>().unwrap(),
                DebitOrCredit::Debit,
            ),
            dummy_audit_info(),
        )
        .expect("Already executed");
    let (_, level_2_id) = chart
        .create_node(
            &AccountSpec::new(
                Some(code("1")),
                vec![section("1"), section("1")],
                "Current Assets".parse::<AccountName>().unwrap(),
                DebitOrCredit::Debit,
            ),
            dummy_audit_info(),
        )
        .expect("Already executed");
    let (_, level_3_id) = chart
        .create_node(
            &AccountSpec::new(
                Some(code("1.1")),
                vec![section("1"), section("1"), section("1")],
                "Cash".parse::<AccountName>().unwrap(),
                DebitOrCredit::Debit,
            ),
            dummy_audit_info(),
        )
        .expect("Already executed");

    (chart, (level_1_id, level_2_id, level_3_id))
}

#[test]
fn adds_from_all_new_trial_balance_accounts() {
    let (chart, (level_1_id, level_2_id, level_3_id)) = default_chart();

    let new_ids =
        chart.trial_balance_account_ids_from_new_accounts(&[level_1_id, level_2_id, level_3_id]);
    assert_eq!(new_ids.len(), 1);
    assert!(new_ids.contains(&level_2_id));
}

#[test]
fn adds_from_some_new_trial_balance_accounts() {
    let (mut chart, _) = default_chart();

    let (_, new_account_set_id) = chart
        .create_node(
            &AccountSpec::new(
                Some(code("1")),
                vec![section("1"), section("2")],
                "Long-term Assets".parse::<AccountName>().unwrap(),
                DebitOrCredit::Debit,
            ),
            dummy_audit_info(),
        )
        .expect("Already executed");

    let new_ids = chart.trial_balance_account_ids_from_new_accounts(&[new_account_set_id]);
    assert!(new_ids.contains(&new_account_set_id));
    assert_eq!(new_ids.len(), 1);
}

#[test]
fn manual_transaction_account_by_id_non_chart_id() {
    let mut chart = chart_from(initial_events());
    let random_id = LedgerAccountId::new();

    let id = match chart
        .manual_transaction_account(AccountIdOrCode::Id(random_id), dummy_audit_info())
        .unwrap()
    {
        ManualAccountFromChart::NonChartId(id) => id,
        _ => panic!("expected NonChartId"),
    };
    assert_eq!(id, random_id);
}

#[test]
fn manual_transaction_account_by_code_new_account() {
    let (mut chart, (_l1, _l2, level_3_set_id)) = default_chart();
    let acct_code = code("1.1.1");
    let before_count = chart.events().len();

    let (account_set_id, new_account) = match chart
        .manual_transaction_account(AccountIdOrCode::Code(acct_code.clone()), dummy_audit_info())
        .unwrap()
    {
        ManualAccountFromChart::NewAccount((account_set_id, new_account)) => {
            (account_set_id, new_account)
        }
        _ => panic!("expected NewAccount"),
    };

    assert_eq!(account_set_id, level_3_set_id);
    assert!(chart.has_manual_transaction_account(new_account.id));

    let events = chart.events();
    assert_eq!(events.len(), before_count + 1);

    let (code, ledger_account_id) = match events.last().unwrap() {
        ChartEvent::ManualTransactionAccountAdded {
            code,
            ledger_account_id,
            ..
        } => (code.clone(), *ledger_account_id),
        _ => panic!("expected ManualTransactionAccountAdded"),
    };
    assert_eq!(code, acct_code);
    assert_eq!(ledger_account_id, new_account.id);
}

#[test]
fn manual_transaction_account_by_code_existing_account() {
    let (mut chart, _) = default_chart();
    let acct_code = code("1.1.1");

    let first = chart
        .manual_transaction_account(AccountIdOrCode::Code(acct_code.clone()), dummy_audit_info())
        .unwrap();
    let ledger_id = match first {
        ManualAccountFromChart::NewAccount((_, new_account)) => new_account.id,
        _ => panic!("expected NewAccount"),
    };

    let second = chart
        .manual_transaction_account(AccountIdOrCode::Code(acct_code.clone()), dummy_audit_info())
        .unwrap();
    match second {
        ManualAccountFromChart::IdInChart(id) => assert_eq!(id, ledger_id),
        other => panic!("expected IdInChart, got {:?}", other),
    }
}

#[test]
fn manual_transaction_account_by_id_in_chart() {
    let (mut chart, _) = default_chart();
    let acct_code = code("1.1.1");

    let ManualAccountFromChart::NewAccount((_, new_account)) = chart
        .manual_transaction_account(AccountIdOrCode::Code(acct_code.clone()), dummy_audit_info())
        .unwrap()
    else {
        panic!("expected NewAccount");
    };

    let ledger_id = new_account.id;
    let id = match chart
        .manual_transaction_account(AccountIdOrCode::Id(ledger_id), dummy_audit_info())
        .unwrap()
    {
        ManualAccountFromChart::IdInChart(id) => id,
        _ => panic!("expected IdInChart"),
    };
    assert_eq!(id, ledger_id)
}

#[test]
fn manual_transaction_account_code_not_found() {
    let mut chart = chart_from(initial_events());
    let bad_code = code("9.9.9");

    let err = chart
        .manual_transaction_account(AccountIdOrCode::Code(bad_code.clone()), dummy_audit_info())
        .unwrap_err();

    match err {
        ChartOfAccountsError::CodeNotFoundInChart(c) => assert_eq!(c, bad_code),
        other => panic!("expected CodeNotFoundInChart, got {:?}", other),
    }
}

#[test]
fn manual_transaction_non_leaf_code() {
    let (mut chart, _) = default_chart();
    let acct_code = code("1.1");

    let res = chart
        .manual_transaction_account(AccountIdOrCode::Code(acct_code.clone()), dummy_audit_info());
    assert!(matches!(res, Err(ChartOfAccountsError::NonLeafAccount(_))));
}

#[test]
fn manual_transaction_non_leaf_account_id_in_chart() {
    // The manual account is recorded while `1.1` is a leaf; `1.1.1` comes later.
    let mut chart = chart_from(initial_events());
    chart.create_node(
        &AccountSpec::new(None, vec![section("1")], "Assets".parse().unwrap(), DebitOrCredit::Debit),
        dummy_audit_info(),
    );
    chart.create_node(
        &AccountSpec::new(
            Some(code("1")),
            vec![section("1"), section("1")],
            "Current Assets".parse().unwrap(),
            DebitOrCredit::Debit,
        ),
        dummy_audit_info(),
    );
    let acct_code = code("1.1");
    let ManualAccountFromChart::NewAccount((_, new_account)) = chart
        .manual_transaction_account(AccountIdOrCode::Code(acct_code), dummy_audit_info())
        .unwrap()
    else {
        panic!("expected NewAccount");
    };
    chart.create_node(
        &AccountSpec::new(
            Some(code("1.1")),
            vec![section("1"), section("1"), section("1")],
            "Cash".parse().unwrap(),
            DebitOrCredit::Debit,
        ),
        dummy_audit_info(),
    );

    let res =
        chart.manual_transaction_account(AccountIdOrCode::Id(new_account.id), dummy_audit_info());
    assert!(matches!(res, Err(ChartOfAccountsError::NonLeafAccount(_))));
}

#[test]
fn create_node_twice_is_executed_then_ignored() {
    let mut chart = chart_from(initial_events());
    let spec = AccountSpec::new(None, vec![section("1")], "Assets".parse().unwrap(), DebitOrCredit::Debit);
    let before = chart.events().len();
    let first = chart.create_node(&spec, dummy_audit_info());
    let second = chart.create_node(&spec, dummy_audit_info());
    assert!(matches!(first, Idempotent::Executed((None, _))));
    assert!(second.was_ignored());
    assert_eq!(chart.events().len(), before + 1);
}

#[test]
fn create_node_reports_parent_set_id() {
    let (mut chart, (level_1_id, _, _)) = default_chart();
    let (parent, _) = chart
        .create_node(
            &AccountSpec::new(
                Some(code("1")),
                vec![section("1"), section("3")],
                "Fixed Assets".parse().unwrap(),
                DebitOrCredit::Debit,
            ),
            dummy_audit_info(),
        )
        .expect("Already executed");
    assert_eq!(parent, Some(level_1_id));
}

#[test]
fn trial_balance_only_level_one() {
    let (chart, (l1, l2, l3)) = default_chart();
    assert_eq!(
        chart.trial_balance_account_ids_from_new_accounts(&[l1, l2, l3]),
        vec![l2]
    );
    assert!(chart.trial_balance_account_ids_from_new_accounts(&[l1, l3]).is_empty());
}

#[test]
fn manual_account_twice_by_code_is_stable() {
    let (mut chart, _) = default_chart();
    let first = chart
        .manual_transaction_account(AccountIdOrCode::Code(code("1.1.1")), dummy_audit_info())
        .unwrap();
    let ManualAccountFromChart::NewAccount((_, new_account)) = first else {
        panic!("expected NewAccount");
    };
    assert_eq!(new_account.name, "1.1.1 Manual");
    let chart_id = chart.id().to_string();
    assert_eq!(new_account.code, format!("{chart_id}.1.1.1.manual"));
    assert_eq!(new_account.external_id, new_account.code);
    let before = chart.events().len();
    let second = chart
        .manual_transaction_account(AccountIdOrCode::Code(code("1.1.1")), dummy_audit_info())
        .unwrap();
    assert!(matches!(second, ManualAccountFromChart::IdInChart(id) if id == new_account.id));
    assert_eq!(chart.events().len(), before);
}

#[test]
fn unknown_id_leaves_log_unchanged() {
    let (mut chart, _) = default_chart();
    let before = chart.events().len();
    let id = LedgerAccountId::new();
    let r = chart
        .manual_transaction_account(AccountIdOrCode::Id(id), dummy_audit_info())
        .unwrap();
    assert!(matches!(r, ManualAccountFromChart::NonChartId(x) if x == id));
    assert_eq!(chart.events().len(), before);
}

#[test]
fn non_leaf_error_names_code() {
    let (mut chart, _) = default_chart();
    match chart.manual_transaction_account(AccountIdOrCode::Code(code("1")), dummy_audit_info()) {
        Err(ChartOfAccountsError::NonLeafAccount(s)) => assert_eq!(s, "1"),
        other => panic!("expected NonLeafAccount, got {:?}", other),
    }
}

#[test]
fn ancestors_children_and_lookup() {
    let (chart, (l1, l2, l3)) = default_chart();
    assert_eq!(chart.ancestors(&code("1.1.1")), vec![l2, l1]);
    assert_eq!(chart.ancestors(&code("1")), vec![]);
    assert_eq!(chart.ancestors(&code("7")), vec![]);
    assert_eq!(chart.children(&code("1")), vec![l2]);
    assert_eq!(chart.children(&code("1.1.1")), vec![]);
    assert_eq!(chart.account_set_id_from_code(&code("1.1.1")).unwrap(), l3);
    assert!(matches!(
        chart.account_set_id_from_code(&code("2")),
        Err(ChartOfAccountsError::CodeNotFoundInChart(_))
    ));
    assert!(chart.check_can_have_manual_transactions(&code("1.1.1")).is_ok());
    assert!(chart.check_can_have_manual_transactions(&code("1.1")).is_err());
}

#[test]
fn rebuild_from_log_keeps_state() {
    let (mut chart, (_, _, l3)) = default_chart();
    chart
        .manual_transaction_account(AccountIdOrCode::Code(code("1.1.1")), dummy_audit_info())
        .unwrap();
    assert_eq!(chart.name(), "Test Chart");
    assert_eq!(chart.reference(), "test-chart");
    assert!(Chart::try_from_events(vec![]).is_err());
    let new_chart = NewChart {
        id: ChartId::new(),
        name: "Other".to_string(),
        reference: "other".to_string(),
        audit_info: dummy_audit_info(),
    };
    let id = new_chart.id;
    let other = Chart::try_from_events(new_chart.into_events()).unwrap();
    assert_eq!(other.id(), id);
    assert_eq!(other.events().len(), 1);
    let _ = l3;
}

#[test]
fn import_csv_builds_tree() {
    let mut chart = chart_from(initial_events());
    assert_eq!(chart.reference(), "test-chart");
    let before = chart.events().len();
    let r = chart
        .import_from_csv(
            "1,,,Assets\n1.1,1,,Current Assets\n1.1.1,1.1,,Cash".to_string(),
            dummy_audit_info(),
        )
        .unwrap();
    let added = chart.events().len() - before;
    assert_eq!(added, 3);
    let node_added = chart
        .events()
        .iter()
        .filter(|e| matches!(e, ChartEvent::NodeAdded { .. }))
        .count();
    assert_eq!(node_added, 3);
    assert_eq!(r.unwrap().len(), 1);

    let tree = chart.chart();
    assert_eq!(tree.children.len(), 1);
    let root = &tree.children[0];
    assert_eq!(root.code.to_string(), "1");
    assert_eq!(root.name, "Assets");
    assert_eq!(root.children.len(), 1);
    let mid = &root.children[0];
    assert_eq!(mid.code.to_string(), "1.1");
    assert_eq!(mid.children.len(), 1);
    assert_eq!(mid.children[0].code.to_string(), "1.1.1");
    assert_eq!(mid.children[0].name, "Cash");
    assert!(mid.children[0].children.is_empty());

    let again = chart
        .import_from_csv("1,,,Assets".to_string(), dummy_audit_info())
        .unwrap();
    assert!(again.is_none());
    assert_eq!(chart.events().len(), before + 3);
}
