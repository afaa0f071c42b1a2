use wallet::app::HttpError;
use wallet::capabilities::memory::MemoryStore;
use wallet::capabilities::store::{StoreEntry, StoreError, StoreOperation};
use wallet::holder::credential::{Credential, CredentialDisplay, Image, ImageData, SubjectClaims};
use wallet::holder::metadata::{IssuedCredential, Issuer, TokenResponse};
use wallet::holder::request::{CredentialRequest, MetadataRequest, TokenRequest};
use wallet::json::Json;
use wallet::model::credential::read_credentials;
use wallet::provider::{self, CredentialAnswer, HttpRequest, Method};

fn credential(id: &str) -> Credential {
    Credential {
        id: id.to_string(),
        issuer: "https://issuer.example".to_string(),
        issuer_name: "Example Issuer".to_string(),
        issued: "header.payload.signature".to_string(),
        type_: vec!["VerifiableCredential".to_string(), "EmployeeIDCredential".to_string()],
        format: "jwt_vc_json".to_string(),
        subject_claims: vec![SubjectClaims {
            id: Some("did:example:holder".to_string()),
            claims: Json::Obj(vec![
                ("email".to_string(), Json::Str("holder@example.com".to_string())),
                (
                    "name".to_string(),
                    Json::Obj(vec![("given".to_string(), Json::Str("Al \"x\" \u{e9}".to_string()))]),
                ),
            ]),
        }],
        claim_definitions: Json::Obj(vec![(
            "email".to_string(),
            Json::Obj(vec![("mandatory".to_string(), Json::Bool(true))]),
        )]),
        issuance_date: "2023-11-20T23:21:55Z".to_string(),
        valid_from: Some("2023-11-20T23:21:55Z".to_string()),
        valid_until: None,
        display: vec![CredentialDisplay {
            name: "Employee ID".to_string(),
            locale: Some("en-NZ".to_string()),
            description: None,
            logo: Some(Image { uri: Some("https://issuer.example/logo.png".to_string()), alt_text: None }),
            background_color: Some("#323ed2".to_string()),
            text_color: None,
            background_image: None,
        }],
        logo: Some(ImageData { data: "bG9nbw==".to_string(), media_type: "image/png".to_string() }),
        background: None,
    }
}

#[test]
fn saved_credential_is_listed_and_reads_back_equal() {
    let kept = credential("c1");
    let mut store = MemoryStore::new();
    let operation = provider::save(&kept).unwrap();
    assert_eq!(
        operation,
        StoreOperation::Save {
            catalog: "credential".to_string(),
            id: "c1".to_string(),
            data: kept.encode().unwrap(),
        }
    );
    assert_eq!(store.respond(&operation).unwrap_save(), Ok(()));
    let entries = store
        .respond(&StoreOperation::List { catalog: "credential".to_string() })
        .unwrap_list()
        .unwrap();
    assert_eq!(entries.len(), 1);
    match &entries[0] {
        StoreEntry::Present(bytes) => assert_eq!(Credential::decode(bytes), Some(kept.clone())),
        StoreEntry::Absent => panic!("nothing listed"),
    }
    assert_eq!(provider::all(&entries), Ok(vec![kept.clone()]));
    assert_eq!(provider::load(&entries, "c1"), Ok(Some(kept)));
    assert_eq!(provider::load(&entries, "c2"), Ok(None));
}

#[test]
fn credential_json_round_trips() {
    let kept = credential("c1");
    assert_eq!(Credential::from_json(&kept.to_json()), Some(kept.clone()));
    assert_eq!(kept.duplicate(), kept);
    let empty = Credential::default();
    assert_eq!(Credential::from_json(&empty.to_json()), Some(empty));
    assert_eq!(Credential::from_json(&Json::Obj(vec![])), None);
    assert_eq!(Credential::from_json(&Json::Null), None);
    assert_eq!(Credential::decode(b"not json"), None);
}

#[test]
fn saving_again_replaces_the_credential() {
    let mut store = MemoryStore::new();
    let mut kept = credential("c1");
    store.respond(&provider::save(&kept).unwrap());
    store.respond(&provider::save(&credential("c2")).unwrap());
    kept.issuer_name = "Renamed".to_string();
    store.respond(&provider::save(&kept).unwrap());
    let entries = store
        .respond(&StoreOperation::List { catalog: "credential".to_string() })
        .unwrap_list()
        .unwrap();
    assert_eq!(provider::all(&entries), Ok(vec![kept, credential("c2")]));
    assert_eq!(store.respond(&provider::remove("c1")).unwrap_delete(), Ok(()));
    let entries = store
        .respond(&StoreOperation::List { catalog: "credential".to_string() })
        .unwrap_list()
        .unwrap();
    assert_eq!(provider::load(&entries, "c1"), Ok(None));
}

#[test]
fn entries_that_are_no_credentials_are_invalid_responses() {
    let entries = vec![StoreEntry::Absent, StoreEntry::Present(b"[]".to_vec())];
    let error = StoreError::InvalidResponse {
        message: "stored credential cannot be read".to_string(),
    };
    assert_eq!(provider::all(&entries), Err(error.clone()));
    assert_eq!(provider::load(&entries, "c1"), Err(error));
    assert_eq!(provider::all(&vec![StoreEntry::Absent]), Ok(vec![]));
}

#[test]
fn requests_go_to_the_addresses_of_the_issuer() {
    let metadata = MetadataRequest { credential_issuer: "https://issuer.example".to_string() };
    assert_eq!(
        provider::metadata(&metadata),
        HttpRequest {
            method: Method::Get,
            url: "https://issuer.example/.well-known/openid-credential-issuer".to_string(),
            query: vec![],
            body: vec![],
            bearer: None,
        }
    );
    let token = TokenRequest {
        credential_issuer: "https://issuer.example".to_string(),
        client_id: "wallet".to_string(),
        grant_type: "urn:ietf:params:oauth:grant-type:pre-authorized_code".to_string(),
        pre_authorized_code: "abc123".to_string(),
        tx_code: Some("1234".to_string()),
    };
    let request = provider::token(&token).unwrap();
    assert_eq!(request.method, Method::Post);
    assert_eq!(request.url, "https://issuer.example/token");
    assert_eq!(request.bearer, None);
    assert_eq!(
        String::from_utf8(request.body).unwrap(),
        r#"{"client_id":"wallet","credential_issuer":"https://issuer.example","grant_type":"urn:ietf:params:oauth:grant-type:pre-authorized_code","pre-authorized_code":"abc123","tx_code":"1234"}"#
    );
    let credential = CredentialRequest {
        credential_issuer: "https://issuer.example".to_string(),
        access_token: "access".to_string(),
        credential_configuration_id: "EmployeeID".to_string(),
        proof_type: "jwt".to_string(),
        jwt: "a.b.c".to_string(),
    };
    let request = provider::credential(&credential).unwrap();
    assert_eq!(request.url, "https://issuer.example/credential");
    assert_eq!(request.bearer, Some("access".to_string()));
    assert_eq!(TokenRequest::from_json(&token.to_json()), Some(token));
    assert_eq!(CredentialRequest::from_json(&credential.to_json()), Some(credential));
    assert_eq!(provider::image("https://issuer.example/logo.png").method, Method::Get);
    assert_eq!(
        provider::post("u".to_string(), None, Err("broken".to_string())),
        Err(HttpError { message: "broken".to_string() })
    );
}

#[test]
fn answers_are_read_from_their_json() {
    let token = provider::token_response(
        br#"{"access_token": "access", "token_type": "Bearer", "expires_in": 3600, "c_nonce": "n"}"#,
    )
    .unwrap();
    assert_eq!(
        token,
        TokenResponse {
            access_token: "access".to_string(),
            token_type: "Bearer".to_string(),
            expires_in: Some(3600),
            c_nonce: Some("n".to_string()),
            c_nonce_expires_in: None,
        }
    );
    assert_eq!(
        provider::token_response(br#"{"access_token": "access"}"#),
        Err(HttpError { message: "answer is no token response".to_string() })
    );
    assert!(provider::token_response(b"<html>").is_err());
    let issuer = provider::metadata_response(
        "issuance-1",
        br#"{"credential_issuer": "https://issuer.example", "display": [{"name": "Example Issuer"}], "credential_configurations_supported": {"EmployeeID": {"format": "jwt_vc_json"}, "Other": {"format": "ldp_vc", "display": [{"name": "Other"}]}}}"#,
    )
    .unwrap();
    assert_eq!(issuer.issuance_id, "issuance-1");
    assert_eq!(issuer.name, "Example Issuer");
    assert_eq!(issuer.configurations.len(), 2);
    assert_eq!(issuer.configuration("Other").unwrap().format, "ldp_vc");
    assert_eq!(issuer.configuration("EmployeeID").unwrap().display, vec![]);
    assert_eq!(issuer.configuration("EmployeeID").unwrap().claims(), Json::Null);
    assert_eq!(issuer.configuration("Missing"), None);
    assert_eq!(
        provider::metadata_response("issuance-1", br#"{"credential_issuer": "x"}"#),
        Err(HttpError { message: "answer is no issuer metadata".to_string() })
    );
    assert_eq!(
        Issuer::from_json(
            "i",
            &Json::parse(br#"{"credential_issuer": "x", "credential_configurations_supported": {"a": {}}}"#)
                .unwrap()
        ),
        None
    );
    assert_eq!(
        provider::image_fetched("ZGF0YQ==".to_string(), Some("image/png".to_string())),
        ImageData { data: "ZGF0YQ==".to_string(), media_type: "image/png".to_string() }
    );
    assert_eq!(provider::image_fetched("ZGF0YQ==".to_string(), None).media_type, "");
    assert_eq!(provider::state_found(Some(vec![1])), Ok(vec![1]));
    assert_eq!(
        provider::state_found(None),
        Err(HttpError { message: "no data found".to_string() })
    );
}

#[test]
fn credential_answers_are_credentials_or_deferrals() {
    assert_eq!(
        provider::credential_response(br#"{"transaction_id": "t1"}"#),
        Ok(CredentialAnswer::Deferred { transaction_id: "t1".to_string() })
    );
    let issued = IssuedCredential {
        id: "c1".to_string(),
        issuer: "https://issuer.example".to_string(),
        issued: "a.b.c".to_string(),
        type_: vec!["VerifiableCredential".to_string()],
        subject_claims: vec![],
        issuance_date: "2023-11-20T23:21:55Z".to_string(),
        valid_from: None,
        valid_until: None,
    };
    let bytes = issued.to_json().print().unwrap();
    assert_eq!(provider::credential_response(&bytes), Ok(CredentialAnswer::Issued(issued)));
    assert_eq!(
        provider::credential_response(b"{}"),
        Err(HttpError { message: "answer is no credential".to_string() })
    );
    assert!(provider::credential_response(b"").is_err());
}

#[test]
fn requests_beyond_the_issuance_have_their_addresses() {
    let body = Json::Obj(vec![("transaction_id".to_string(), Json::Str("t1".to_string()))]);
    let request = provider::deferred("https://issuer.example", "access", &body).unwrap();
    assert_eq!(request.url, "https://issuer.example/deferred_credential");
    assert_eq!(request.bearer, Some("access".to_string()));
    assert_eq!(request.body, br#"{"transaction_id":"t1"}"#.to_vec());
    assert_eq!(
        provider::authorization("https://issuer.example", vec![]),
        provider::get("https://issuer.example/authorize".to_string())
    );
    let parameters = vec![
        ("response_type".to_string(), "code".to_string()),
        ("client_id".to_string(), "wallet".to_string()),
    ];
    assert_eq!(
        provider::authorization("https://issuer.example", parameters.clone()),
        HttpRequest {
            method: Method::Get,
            url: "https://issuer.example/authorize".to_string(),
            query: parameters,
            body: vec![],
            bearer: None,
        }
    );
    assert_eq!(request.query, vec![]);
    assert_eq!(
        provider::request_object("https://verifier.example/request/1").url,
        "https://verifier.example/request/1"
    );
    let sent = provider::present(Some("https://verifier.example/post"), &body).unwrap();
    assert_eq!(sent.method, Method::Post);
    assert_eq!(sent.url, "https://verifier.example/post");
    assert_eq!(sent.body, br#"{"transaction_id":"t1"}"#.to_vec());
    assert_eq!(sent.bearer, None);
    let unreadable = Json::Num("twelve".to_string());
    assert_eq!(
        provider::present(Some("https://verifier.example/post"), &unreadable).unwrap().body,
        b"null".to_vec()
    );
    assert_eq!(
        provider::present(None, &body),
        Err(HttpError { message: "no presentation URI".to_string() })
    );
    assert_eq!(
        provider::present_printed(Some("u"), Err("broken".to_string())),
        Err(HttpError { message: "broken".to_string() })
    );
}

#[test]
fn select_keeps_what_satisfies_the_filter() {
    let credentials = vec![credential("a"), credential("b"), credential("c")];
    assert_eq!(
        provider::select(credentials.clone(), vec![Ok(true), Ok(false), Ok(true)]),
        Ok(vec![credential("a"), credential("c")])
    );
    assert_eq!(
        provider::select(
            credentials.clone(),
            vec![Ok(true), Err("first".to_string()), Err("second".to_string())]
        ),
        Err("first".to_string())
    );
    assert_eq!(provider::select(credentials.clone(), vec![Ok(true)]), Ok(vec![credential("a")]));
    assert_eq!(provider::select(vec![], vec![Err("none".to_string())]), Ok(vec![]));
    assert_eq!(provider::select(credentials, vec![]), Ok(vec![]));
}

fn stored(credential: &Credential) -> StoreEntry {
    StoreEntry::Present(credential.encode().unwrap())
}

#[test]
fn load_stops_at_the_first_credential_with_the_id() {
    let mut first = credential("c1");
    first.issuer_name = "First".to_string();
    let entries = vec![
        stored(&credential("c0")),
        StoreEntry::Absent,
        stored(&first),
        StoreEntry::Present(b"[]".to_vec()),
        stored(&credential("c1")),
    ];
    assert_eq!(provider::load(&entries, "c0"), Ok(Some(credential("c0"))));
    assert_eq!(provider::load(&entries, "c1"), Ok(Some(first)));
    let error = StoreError::InvalidResponse {
        message: "stored credential cannot be read".to_string(),
    };
    assert_eq!(provider::load(&entries, "c2"), Err(error.clone()));
    assert_eq!(provider::all(&entries), Err(error));
    assert_eq!(provider::load(&vec![], "c0"), Ok(None));
}

#[test]
fn reading_stops_at_the_first_entry_that_is_no_credential() {
    let entries = vec![
        stored(&credential("a")),
        StoreEntry::Absent,
        stored(&credential("b")),
        StoreEntry::Present(b"{".to_vec()),
        stored(&credential("c")),
    ];
    assert_eq!(read_credentials(&entries), (vec![credential("a"), credential("b")], false));
    assert_eq!(read_credentials(&entries[..3].to_vec()), (vec![credential("a"), credential("b")], true));
    assert_eq!(read_credentials(&vec![]), (vec![], true));
    assert_eq!(read_credentials(&vec![StoreEntry::Absent]), (vec![], true));
}

#[test]
fn find_reports_what_came_first() {
    let credentials = vec![credential("a"), credential("b")];
    let unreadable = "invalid store response stored credential cannot be read".to_string();
    assert_eq!(
        provider::find(credentials.clone(), true, vec![Ok(false), Ok(true)]),
        Ok(vec![credential("b")])
    );
    assert_eq!(
        provider::find(credentials.clone(), false, vec![Ok(true), Ok(true)]),
        Err(unreadable.clone())
    );
    assert_eq!(
        provider::find(credentials.clone(), false, vec![Ok(true), Err("filter".to_string())]),
        Err("filter".to_string())
    );
    assert_eq!(
        provider::find(credentials, true, vec![Err("filter".to_string()), Ok(true)]),
        Err("filter".to_string())
    );
    assert_eq!(provider::find(vec![], false, vec![]), Err(unreadable));
    assert_eq!(provider::find(vec![], true, vec![]), Ok(vec![]));
}

#[test]
fn members_are_stored_in_the_order_of_their_names() {
    let mut kept = credential("c1");
    kept.subject_claims[0].claims = Json::Obj(vec![
        ("b".to_string(), Json::Int(1)),
        ("a".to_string(), Json::Int(2)),
    ]);
    let read = Credential::decode(&kept.encode().unwrap()).unwrap();
    assert_ne!(read, kept);
    assert_eq!(
        read.subject_claims[0].claims,
        Json::Obj(vec![
            ("a".to_string(), Json::Int(2)),
            ("b".to_string(), Json::Int(1)),
        ])
    );
    kept.subject_claims[0].claims = read.subject_claims[0].claims.clone();
    assert_eq!(read, kept);
    assert_eq!(Credential::decode(&read.encode().unwrap()), Some(read));
}
