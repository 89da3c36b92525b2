use chart_of_accounts::ids::{ChartId, LedgerAccountId};
use chart_of_accounts::storage::{GcpConfig, LocalClient, LocalConfig, StorageConfig};

#[test]
fn gcp_dev_mode_names_bucket() {
    let c = GcpConfig::new_dev_mode("gha".to_string());
    assert_eq!(c.bucket_name, "gha-lana-documents");
    assert_eq!(c.root_folder, "gha");
    match StorageConfig::new_gcp_dev_mode("test".to_string()) {
        StorageConfig::Gcp(c) => assert_eq!(c.bucket_name, "test-lana-documents"),
        _ => panic!("expected Gcp"),
    }
}

#[test]
fn storage_constructors() {
    match StorageConfig::new_gcp("bucket".to_string(), "root".to_string()) {
        StorageConfig::Gcp(c) => {
            assert_eq!(c.bucket_name, "bucket");
            assert_eq!(c.root_folder, "root");
        }
        _ => panic!("expected Gcp"),
    }
    match StorageConfig::new_local("localtest".to_string()) {
        StorageConfig::Local(c) => {
            let client = LocalClient::new(&c);
            assert_eq!(client.root_folder(), "localtest");
        }
        _ => panic!("expected Local"),
    }
    assert!(matches!(StorageConfig::default(), StorageConfig::Gcp(_)));
    assert_eq!(LocalConfig::default().root_folder, "");
}

#[test]
fn custodian_configs_convert() {
    let k = chart_of_accounts::custody::KomainuConfig {
        api_key: "key".to_string(),
        api_secret: "secret".to_string(),
        testing_instance: true,
        secret_key: "dem".to_string(),
    };
    let lib: chart_of_accounts::komainu::KomainuConfig = k.into();
    assert_eq!(lib.api_user, "key");
    assert!(lib.komainu_test);
    assert!(matches!(lib.secret_key, chart_of_accounts::komainu::KomainuSecretKey::Plain { ref dem } if dem == "dem"));
    let b = chart_of_accounts::custody::BitgoConfig {
        long_lived_token: "t".to_string(),
        enterprise_id: "e".to_string(),
        express_endpoint: "x".to_string(),
        passphrase: "p".to_string(),
        testing_instance: false,
    };
    let lib: chart_of_accounts::bitgo::BitgoConfig = b.into();
    assert_eq!(lib.enterprise_id, "e");
    assert!(!lib.bitgo_test);
}

#[test]
fn uuid_ids_parse_and_print() {
    let id = LedgerAccountId::parse("6107522e-11e6-4b03-9056-516dfbbee36a").unwrap();
    assert_eq!(id.value, 0x6107522e_11e6_4b03_9056_516dfbbee36a);
    assert!(LedgerAccountId::parse("1.1").is_none());
    let c = ChartId { value: 0x6107522e_11e6_4b03_9056_516dfbbee36a };
    assert_eq!(c.to_string(), "6107522e-11e6-4b03-9056-516dfbbee36a");
    assert_ne!(ChartId::new(), ChartId::new());
}
