use chart_of_accounts::applicant::{Address, ApplicantDetails, ApplicantInfo, IdDocument};
use chart_of_accounts::ids::CustomerId;

fn sample() -> ApplicantDetails {
    ApplicantDetails {
        id: "68640f360a2c53f472902421".to_string(),
        customer_id: CustomerId::parse("6107522e-11e6-4b03-9056-516dfbbee36a").unwrap(),
        info: ApplicantInfo {
            first_name: Some("John".to_string()),
            last_name: Some("Mock-Doe".to_string()),
            country: Some("USA".to_string()),
            addresses: Some(vec![Address {
                formatted_address: Some("HEIDESTRASSE 19, KÖLN, Germany, 51247".to_string()),
            }]),
            id_docs: Some(vec![
                IdDocument {
                    doc_type: "PASSPORT".to_string(),
                    country: Some("USA".to_string()),
                },
                IdDocument {
                    doc_type: "UTILITY_BILL".to_string(),
                    country: Some("DEU".to_string()),
                },
            ]),
        },
        applicant_type: "individual".to_string(),
    }
}

#[test]
fn test_parse_sumsub_json() {
    let applicant_details = sample();
    assert_eq!(applicant_details.id, "68640f360a2c53f472902421");
    assert_eq!(
        applicant_details.customer_id.to_string(),
        "6107522e-11e6-4b03-9056-516dfbbee36a"
    );
    assert_eq!(applicant_details.applicant_type, "individual");
    assert_eq!(applicant_details.first_name(), Some("John"));
    assert_eq!(applicant_details.last_name(), Some("Mock-Doe"));
    assert_eq!(
        applicant_details.full_name(),
        Some("John Mock-Doe".to_string())
    );
    assert_eq!(applicant_details.nationality(), Some("USA"));
    assert_eq!(
        applicant_details.primary_address(),
        Some("HEIDESTRASSE 19, KÖLN, Germany, 51247")
    );
    let id_docs = applicant_details.info.id_docs.as_ref().unwrap();
    assert_eq!(id_docs.len(), 2);
    assert_eq!(id_docs[0].doc_type, "PASSPORT");
    assert_eq!(id_docs[1].doc_type, "UTILITY_BILL");
    assert_eq!(id_docs[1].country.as_deref(), Some("DEU"));
}

#[test]
fn nationality_falls_back_to_passport() {
    let mut d = sample();
    d.info.country = None;
    d.info.id_docs = Some(vec![
        IdDocument {
            doc_type: "UTILITY_BILL".to_string(),
            country: Some("DEU".to_string()),
        },
        IdDocument {
            doc_type: "PASSPORT".to_string(),
            country: None,
        },
        IdDocument {
            doc_type: "PASSPORT".to_string(),
            country: Some("FRA".to_string()),
        },
    ]);
    assert_eq!(d.nationality(), Some("FRA"));
    d.info.id_docs = None;
    assert_eq!(d.nationality(), None);
}

#[test]
fn full_name_with_one_part() {
    let mut d = sample();
    d.info.first_name = None;
    assert_eq!(d.full_name(), Some("Mock-Doe".to_string()));
    d.info.last_name = None;
    assert_eq!(d.full_name(), None);
    d.info.first_name = Some("Jane".to_string());
    assert_eq!(d.full_name(), Some("Jane".to_string()));
    d.info.addresses = Some(vec![]);
    assert_eq!(d.primary_address(), None);
}
