use wallet::app::{App, Aspect};
use wallet::holder::credential::{
    Credential as CredentialModel, CredentialDisplay, ImageData, SubjectClaims,
};
use wallet::holder::metadata::CredentialConfiguration;
use wallet::holder::offer::TxCode as TxCodeModel;
use wallet::json::Json;
use wallet::model::credential::CredentialState;
use wallet::model::issuance::OfferedCredential;
use wallet::model::Model;
use wallet::text::{capitalize, decimal_text};
use wallet::view::claims::{display, label, value_to_text, ClaimView};
use wallet::view::credential::{show_date, show_optional_date, Credential, CredentialView};
use wallet::view::issuance::{IssuanceView, TxCode};
use wallet::view::ViewModel;

const CREDENTIALS: &str = r##"[
    {
        "id": "https://vercre.io/credentials/EmployeeIDCredential",
        "issuer": "https://vercre.io",
        "issuer_name": "Vercre",
        "issued": "eyJhbGciOiJFUzI1NksifQ.e30.c2ln",
        "type": ["VerifiableCredential", "EmployeeIDCredential"],
        "format": "jwt_vc_json",
        "subject_claims": [
            {
                "id": "did:example:alice",
                "claims": {
                    "email": "alice@vercre.io",
                    "family_name": "Person",
                    "given_name": "Alice",
                    "address": {"locality": "Wellington", "street_address": "1 Lambton Quay"}
                }
            }
        ],
        "claim_definitions": {
            "email": {"mandatory": true, "value_type": "string", "display": [{"name": "Email", "locale": "en-NZ"}]},
            "family_name": {"display": [{"name": "Nom", "locale": "fr"}, {"name": "Family name"}]},
            "address": {
                "street_address": {"display": [{"name": "Street Address", "locale": "en-NZ"}]}
            }
        },
        "issuance_date": "2023-11-20T23:21:55Z",
        "valid_from": "2023-11-20T23:21:55Z",
        "valid_until": "2033-12-20T23:21:55+13:00",
        "display": [
            {"name": "Employee ID", "locale": "en-NZ", "description": "Vercre employee ID credential", "background_color": "#323ed2", "text_color": "#ffffff"}
        ],
        "logo": {"data": "bG9nbw==", "media_type": "image/png"},
        "background": null
    },
    {
        "id": "https://vercre.io/credentials/DeveloperCredential",
        "issuer": "https://vercre.io",
        "issuer_name": "Vercre",
        "issued": "eyJhbGciOiJFUzI1NksifQ.e30.c2ln",
        "type": ["VerifiableCredential", "DeveloperCredential"],
        "format": "jwt_vc_json",
        "subject_claims": [
            {"id": null, "claims": {"proficiency": 3, "pathway": ["a", "b"], "certified": true}},
            {"id": "did:example:alice", "claims": {"proficiency": 1}},
            {"claims": {"proficiency": 4}}
        ],
        "claim_definitions": {},
        "issuance_date": "yesterday",
        "valid_from": null,
        "valid_until": null,
        "display": [
            {"name": "Entwickler", "locale": "de"},
            {"name": "Developer", "description": "Vercre certified developer credential"}
        ],
        "logo": null,
        "background": null
    }
]"##;

fn credentials() -> Vec<CredentialModel> {
    match Json::parse(CREDENTIALS.as_bytes()).expect("should deserialize") {
        Json::Arr(items) => items
            .iter()
            .map(|item| CredentialModel::from_json(item).expect("should deserialize"))
            .collect(),
        _ => panic!("should deserialize"),
    }
}

fn claim(name: &str, value: &str) -> ClaimView {
    ClaimView { name: name.to_string(), value: value.to_string() }
}

fn empty_image() -> ImageData {
    ImageData { data: String::new(), media_type: String::new() }
}

#[test]
fn test_credential_from_model() {
    let credentials = credentials();
    assert_eq!(credentials.len(), 2);

    let credential = Credential::from(credentials[0].clone());
    assert_eq!(
        credential,
        Credential {
            id: "https://vercre.io/credentials/EmployeeIDCredential".to_string(),
            issuer: "https://vercre.io".to_string(),
            issuer_name: "Vercre".to_string(),
            issued: "eyJhbGciOiJFUzI1NksifQ.e30.c2ln".to_string(),
            type_: vec!["VerifiableCredential".to_string(), "EmployeeIDCredential".to_string()],
            format: "jwt_vc_json".to_string(),
            claims: vec![(
                "did:example:alice".to_string(),
                vec![
                    claim("Address.Locality", "Wellington"),
                    claim("Address.Street Address", "1 Lambton Quay"),
                    claim("Email", "alice@vercre.io"),
                    claim("Family name", "Person"),
                    claim("Given_name", "Alice"),
                ]
            )],
            issuance_date: "Mon, 20 Nov 2023".to_string(),
            valid_from: "Mon, 20 Nov 2023".to_string(),
            valid_until: "Tue, 20 Dec 2033".to_string(),
            name: "Employee ID".to_string(),
            description: "Vercre employee ID credential".to_string(),
            background_color: "#323ed2".to_string(),
            text_color: "#ffffff".to_string(),
            logo: ImageData { data: "bG9nbw==".to_string(), media_type: "image/png".to_string() },
            background: empty_image(),
        }
    );

    let credential = Credential::from(credentials[1].clone());
    assert_eq!(
        credential,
        Credential {
            id: "https://vercre.io/credentials/DeveloperCredential".to_string(),
            issuer: "https://vercre.io".to_string(),
            issuer_name: "Vercre".to_string(),
            issued: "eyJhbGciOiJFUzI1NksifQ.e30.c2ln".to_string(),
            type_: vec!["VerifiableCredential".to_string(), "DeveloperCredential".to_string()],
            format: "jwt_vc_json".to_string(),
            claims: vec![
                ("".to_string(), vec![claim("Proficiency", "4")]),
                ("did:example:alice".to_string(), vec![claim("Proficiency", "1")]),
            ],
            issuance_date: "yesterday".to_string(),
            valid_from: String::new(),
            valid_until: String::new(),
            name: "Developer".to_string(),
            description: "Vercre certified developer credential".to_string(),
            background_color: String::new(),
            text_color: String::new(),
            logo: empty_image(),
            background: empty_image(),
        }
    );
}

#[test]
fn test_credential_from_offer() {
    let json = r##"{
        "format": "jwt_vc_json",
        "scope": "EmployeeIDCredential",
        "cryptographic_binding_methods_supported": ["did:key", "did:web"],
        "credential_signing_alg_values_supported": ["ES256K", "EdDSA"],
        "proof_types_supported": {
            "jwt": {"proof_signing_alg_values_supported": ["ES256K", "EdDSA"]}
        },
        "display": [
            {
                "name": "Employee ID",
                "description": "Vercre employee ID credential",
                "locale": "en-NZ",
                "logo": {
                    "uri": "https://vercre.github.io/assets/employee.png",
                    "alt_text": "Vercre Logo"
                },
                "text_color": "#ffffff",
                "background_color": "#323ed2",
                "background_image": {
                    "uri": "https://vercre.github.io/assets/employee-background.png",
                    "alt_text": "Vercre Background"
                }
            }
        ],
        "credential_definition": {
            "type": ["VerifiableCredential", "EmployeeIDCredential"],
            "credentialSubject": {
                "email": {
                    "mandatory": true,
                    "value_type": "string",
                    "display": [{"name": "Email", "locale": "en-NZ"}]
                },
                "family_name": {
                    "mandatory": true,
                    "value_type": "string",
                    "display": [{"name": "Family name", "locale": "en-NZ"}]
                },
                "given_name": {
                    "mandatory": true,
                    "value_type": "string",
                    "display": [{"name": "Given name", "locale": "en-NZ"}]
                },
                "address": {
                    "street_address": {
                        "value_type": "string",
                        "display": [{"name": "Street Address", "locale": "en-NZ"}]
                    },
                    "locality": {
                        "value_type": "string",
                        "display": [{"name": "Locality", "locale": "en-NZ"}]
                    },
                    "region": {
                        "value_type": "string",
                        "display": [{"name": "Region", "locale": "en-NZ"}]
                    },
                    "country": {
                        "value_type": "string",
                        "display": [{"name": "Country", "locale": "en-NZ"}]
                    }
                }
            }
        }
    }"##;
    let config = CredentialConfiguration::from_json(&Json::parse(json.as_bytes()).unwrap())
        .expect("should deserialize from json");
    let offer = OfferedCredential {
        config,
        logo: None,
        background: None,
        received: false,
        stored: false,
        deferred: false,
    };
    let credential = Credential::from_offer("issuer", "Issuer", offer);
    assert_eq!(
        credential,
        Credential {
            id: String::new(),
            issuer: "issuer".to_string(),
            issuer_name: "Issuer".to_string(),
            issued: String::new(),
            type_: vec![],
            format: String::new(),
            claims: vec![(
                String::new(),
                vec![
                    claim("Address.Country", ""),
                    claim("Address.Locality", ""),
                    claim("Address.Region", ""),
                    claim("Address.Street Address", ""),
                    claim("Email", ""),
                    claim("Family name", ""),
                    claim("Given name", ""),
                ]
            )],
            issuance_date: String::new(),
            valid_from: String::new(),
            valid_until: String::new(),
            name: "Employee ID".to_string(),
            description: "Vercre employee ID credential".to_string(),
            background_color: "#323ed2".to_string(),
            text_color: "#ffffff".to_string(),
            logo: empty_image(),
            background: empty_image(),
        }
    );
}

#[test]
fn labels_follow_the_locale() {
    let definition = Json::parse(
        br#"{"display": [{"name": "Nom", "locale": "fr"}, {"name": "Name"}, {"name": "Naam", "locale": "nl"}]}"#,
    )
    .unwrap();
    assert_eq!(label(&definition, "family_name", &Some("nl".to_string())), "Naam");
    assert_eq!(label(&definition, "family_name", &Some("fr".to_string())), "Nom");
    assert_eq!(label(&definition, "family_name", &None), "Name");
    assert_eq!(label(&definition, "family_name", &Some("de".to_string())), "Nom");
    let unnamed = Json::parse(br#"{"display": [{"locale": "fr"}]}"#).unwrap();
    assert_eq!(label(&unnamed, "family_name", &Some("fr".to_string())), "Family_name");
    assert_eq!(label(&Json::Null, "email", &None), "Email");
    assert_eq!(label(&Json::Null, "", &None), "");
}

#[test]
fn values_are_shown_as_text() {
    assert_eq!(value_to_text(&Json::Str("a b".to_string())), "a b");
    assert_eq!(value_to_text(&Json::Int(-42)), "-42");
    assert_eq!(value_to_text(&Json::Num("2.50".to_string())), "2.50");
    assert_eq!(value_to_text(&Json::Bool(true)), "true");
    assert_eq!(value_to_text(&Json::Bool(false)), "false");
    assert_eq!(value_to_text(&Json::Null), "");
    assert_eq!(value_to_text(&Json::Arr(vec![])), "");
    assert_eq!(
        value_to_text(&Json::Arr(vec![
            Json::Int(1),
            Json::Str("two".to_string()),
            Json::Arr(vec![Json::Bool(true), Json::Null]),
        ])),
        "1, two, true, "
    );
    assert_eq!(value_to_text(&Json::Obj(vec![("a".to_string(), Json::Int(1))])), "");
}

#[test]
fn nested_claims_are_shown_below_their_group() {
    let claims = Json::parse(br#"{"a": {"b": {"c": 1, "d": "x"}, "e": 2}, "f": []}"#).unwrap();
    let definitions =
        Json::parse(br#"{"a": {"b": {"c": {"display": [{"name": "Sea"}]}}}}"#).unwrap();
    assert_eq!(
        display(&claims, &definitions, &None),
        vec![claim("A.B.Sea", "1"), claim("A.B.D", "x"), claim("A.E", "2"), claim("F", "")]
    );
    assert_eq!(display(&Json::Null, &definitions, &None), vec![]);
    assert_eq!(display(&Json::Obj(vec![]), &definitions, &None), vec![]);
}

#[test]
fn text_is_capitalized_and_numbers_are_written_in_decimal() {
    assert_eq!(capitalize("email"), "Email");
    assert_eq!(capitalize("Email"), "Email");
    assert_eq!(capitalize("z"), "Z");
    assert_eq!(capitalize("_x"), "_x");
    assert_eq!(capitalize("élan"), "élan");
    assert_eq!(capitalize(""), "");
    assert_eq!(decimal_text(0), "0");
    assert_eq!(decimal_text(7), "7");
    assert_eq!(decimal_text(1234567890), "1234567890");
    assert_eq!(decimal_text(-1), "-1");
    assert_eq!(decimal_text(i64::MAX), "9223372036854775807");
    assert_eq!(decimal_text(i64::MIN), "-9223372036854775808");
}

#[test]
fn dates_are_shown_as_days() {
    assert_eq!(show_date("2023-11-20T23:21:55Z"), "Mon, 20 Nov 2023");
    assert_eq!(show_date("2024-01-01T00:30:00+01:00"), "Sun, 31 Dec 2023");
    assert_eq!(show_date("1970-01-01T00:00:00Z"), "Thu, 01 Jan 1970");
    assert_eq!(show_date("20 November"), "20 November");
    assert_eq!(show_date(""), "?");
    assert_eq!(show_optional_date(&None), "");
    assert_eq!(show_optional_date(&Some(String::new())), "?");
    assert_eq!(show_optional_date(&Some("soon".to_string())), "soon");
    assert_eq!(show_optional_date(&Some("2023-11-20T23:21:55Z".to_string())), "Mon, 20 Nov 2023");
}

#[test]
fn tx_code_is_shown_with_defaults() {
    assert_eq!(
        TxCode::default(),
        TxCode { input_mode: "numeric".to_string(), length: 0, description: String::new() }
    );
    assert_eq!(TxCode::from(None), TxCode::default());
    assert_eq!(
        TxCode::from(Some(TxCodeModel { input_mode: None, length: None, description: None })),
        TxCode::default()
    );
    assert_eq!(
        TxCode::from(Some(TxCodeModel {
            input_mode: Some("text".to_string()),
            length: Some(6),
            description: Some("sent by mail".to_string()),
        })),
        TxCode { input_mode: "text".to_string(), length: 6, description: "sent by mail".to_string() }
    );
}

#[test]
fn display_record_is_chosen_by_locale() {
    let record = |name: &str, locale: Option<&str>| CredentialDisplay {
        name: name.to_string(),
        locale: locale.map(str::to_string),
        ..CredentialDisplay::default()
    };
    let records = vec![record("de", Some("de")), record("any", None), record("fr", Some("fr"))];
    let shown = |locale: Option<&str>| {
        wallet::view::credential::shown_record(&records, &locale.map(str::to_string))
            .map(|r| r.name.clone())
    };
    assert_eq!(shown(None), Some("any".to_string()));
    assert_eq!(shown(Some("fr")), Some("fr".to_string()));
    assert_eq!(shown(Some("nl")), Some("de".to_string()));
    assert_eq!(wallet::view::credential::shown_record(&vec![], &None), None);
}

#[test]
fn view_shows_the_model() {
    let mut model = Model::new();
    let shown = App.view(&model);
    assert_eq!(shown, ViewModel::default());
    assert_eq!(shown.active_view, Aspect::CredentialList);
    assert_eq!(shown.issuance_view, IssuanceView::default());
    model.credential =
        CredentialState { id: Some("c".to_string()), credentials: credentials() };
    model.error("broken".to_string());
    let shown = App.view(&model);
    assert_eq!(shown.active_view, Aspect::Error);
    assert_eq!(shown.error, "broken");
    assert_eq!(shown.credential_view.id, Some("c".to_string()));
    assert_eq!(shown.credential_view.credentials.len(), 2);
    assert_eq!(shown.credential_view.credentials[1].name, "Developer");
    assert_eq!(
        CredentialView::from(model.credential.clone()),
        CredentialView::from_state(&model.credential, &None)
    );
    let german = CredentialView::from_state(&model.credential, &Some("de".to_string()));
    assert_eq!(german.credentials[1].name, "Entwickler");
    assert_eq!(german.credentials[0].name, "Employee ID");
}

#[test]
fn later_claims_of_a_subject_replace_earlier_ones() {
    let set = |id: Option<&str>, value: i64| SubjectClaims {
        id: id.map(str::to_string),
        claims: Json::Obj(vec![("n".to_string(), Json::Int(value))]),
    };
    let credential = CredentialModel {
        subject_claims: vec![set(Some("a"), 1), set(None, 2), set(Some("a"), 3), set(Some("b"), 4)],
        ..CredentialModel::default()
    };
    let shown = Credential::from_model(&credential, &None);
    assert_eq!(
        shown.claims,
        vec![
            ("a".to_string(), vec![claim("N", "3")]),
            ("".to_string(), vec![claim("N", "2")]),
            ("b".to_string(), vec![claim("N", "4")]),
        ]
    );
}

#[test]
fn a_date_is_shown_empty_only_where_there_is_none() {
    let mut credential = CredentialModel::default();
    let shown = Credential::from_model(&credential, &None);
    assert_eq!(shown.valid_from, "");
    assert_eq!(shown.valid_until, "");
    credential.valid_from = Some(String::new());
    credential.valid_until = Some("next year".to_string());
    credential.issuance_date = "2023-11-20T23:21:55Z".to_string();
    let shown = Credential::from(credential);
    assert_eq!(shown.valid_from, "?");
    assert_eq!(shown.valid_until, "next year");
    assert_eq!(shown.issuance_date, "Mon, 20 Nov 2023");
}
