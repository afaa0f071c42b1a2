use wallet::app::{App, Aspect, Effect, Event, HttpError, StoreThen};
use wallet::capabilities::store::StoreOperation;
use wallet::holder::credential::{Credential, ImageData, SubjectClaims};
use wallet::holder::metadata::{CredentialConfiguration, IssuedCredential, Issuer, TokenResponse};
use wallet::holder::offer::{
    CredentialOffer, DecodeError, Grants, PreAuthorizedCodeGrant, TxCode,
};
use wallet::holder::request::{CredentialRequest, MetadataRequest, ProofRequest, TokenRequest};
use wallet::json::Json;
use wallet::model::issuance::{
    Change, Flow, ImageKind, ImageRequest, IssuanceError, IssuanceState, OfferedCredential,
    OfferedMap,
};
use wallet::model::Model;

const OFFER: &str = r#"{"credential_issuer": "https://issuer.example", "credential_configuration_ids": ["EmployeeID"], "grants": {"pre-authorized_code": {"pre-authorized_code": "abc123", "tx_code": {"input_mode":"numeric","length":4}}}}"#;

const CONFIGURATION: &str = r##"{
    "format": "jwt_vc_json",
    "scope": "EmployeeIDCredential",
    "display": [
        {
            "name": "Employee ID",
            "description": "Vercre employee ID credential",
            "locale": "en-NZ",
            "logo": {"uri": "https://vercre.github.io/assets/employee.png", "alt_text": "Vercre Logo"},
            "text_color": "#ffffff",
            "background_color": "#323ed2",
            "background_image": {"uri": "https://vercre.github.io/assets/employee-background.png", "alt_text": "Vercre Background"}
        }
    ],
    "credential_definition": {
        "type": ["VerifiableCredential", "EmployeeIDCredential"],
        "credentialSubject": {
            "email": {"mandatory": true, "value_type": "string", "display": [{"name": "Email", "locale": "en-NZ"}]}
        }
    }
}"##;

fn encoded(offer: &str) -> String {
    urlencoding::encode(offer).into_owned()
}

fn configuration() -> CredentialConfiguration {
    CredentialConfiguration::from_json(&Json::parse(CONFIGURATION.as_bytes()).unwrap()).unwrap()
}

fn issuer() -> Issuer {
    Issuer {
        issuance_id: "issuance-1".to_string(),
        credential_issuer: "https://issuer.example".to_string(),
        name: "Example Issuer".to_string(),
        configurations: vec![("EmployeeID".to_string(), configuration())],
    }
}

fn image(data: &str) -> ImageData {
    ImageData { data: data.to_string(), media_type: "image/png".to_string() }
}

fn token() -> TokenResponse {
    TokenResponse {
        access_token: "access".to_string(),
        token_type: "Bearer".to_string(),
        expires_in: Some(3600),
        c_nonce: Some("nonce".to_string()),
        c_nonce_expires_in: None,
    }
}

fn issued() -> IssuedCredential {
    IssuedCredential {
        id: "https://issuer.example/credentials/1".to_string(),
        issuer: "https://issuer.example".to_string(),
        issued: "header.payload.signature".to_string(),
        type_: vec!["VerifiableCredential".to_string(), "EmployeeIDCredential".to_string()],
        subject_claims: vec![SubjectClaims {
            id: Some("did:example:holder".to_string()),
            claims: Json::Obj(vec![(
                "email".to_string(),
                Json::Str("holder@example.com".to_string()),
            )]),
        }],
        issuance_date: "2023-11-20T23:21:55Z".to_string(),
        valid_from: None,
        valid_until: None,
    }
}

fn tx_code() -> TxCode {
    TxCode { input_mode: Some("numeric".to_string()), length: Some(4), description: None }
}

fn grant() -> PreAuthorizedCodeGrant {
    PreAuthorizedCodeGrant { pre_authorized_code: "abc123".to_string(), tx_code: Some(tx_code()) }
}

fn offer() -> CredentialOffer {
    CredentialOffer {
        credential_issuer: "https://issuer.example".to_string(),
        credential_configuration_ids: vec!["EmployeeID".to_string()],
        grants: Some(Grants { pre_authorized_code: Some(grant()) }),
    }
}

fn with_metadata() -> IssuanceState {
    let state = IssuanceState::from_offer(&encoded(OFFER)).unwrap();
    let (state, error) = state.issuer(&issuer());
    assert_eq!(error, None);
    state
}

#[test]
fn from_offer_reads_a_pre_authorized_offer() {
    let state = IssuanceState::from_offer(&encoded(OFFER)).unwrap();
    assert_eq!(state, IssuanceState::Offered { offer: offer(), grant: grant() });
    match state {
        IssuanceState::Offered { grant, .. } => assert_eq!(grant.pre_authorized_code, "abc123"),
        _ => panic!("not offered"),
    }
}

#[test]
fn from_offer_reads_an_offer_that_is_not_encoded() {
    assert_eq!(
        IssuanceState::from_offer(OFFER),
        Ok(IssuanceState::Offered { offer: offer(), grant: grant() })
    );
}

#[test]
fn from_offer_refuses_an_offer_without_grants() {
    let text = r#"{"credential_issuer": "https://issuer.example", "credential_configuration_ids": ["EmployeeID"]}"#;
    assert_eq!(IssuanceState::from_offer(&encoded(text)), Err(IssuanceError::UnsupportedGrant));
}

#[test]
fn from_offer_refuses_an_offer_with_another_grant() {
    let text = r#"{"credential_issuer": "https://issuer.example", "credential_configuration_ids": ["EmployeeID"], "grants": {"authorization_code": {"issuer_state": "s"}}}"#;
    let error = IssuanceState::from_offer(&encoded(text)).unwrap_err();
    assert_eq!(error, IssuanceError::UnsupportedGrant);
    assert_eq!(error.to_string(), "grant other than pre-authorized code is not supported");
}

#[test]
fn from_offer_refuses_what_is_no_offer() {
    assert_eq!(IssuanceState::from_offer("%FF%FE"), Err(IssuanceError::Encoding));
    match IssuanceState::from_offer("not json") {
        Err(IssuanceError::Syntax { message }) => assert!(!message.is_empty()),
        other => panic!("unexpected {:?}", other),
    }
    assert_eq!(
        IssuanceState::from_offer(r#"{"credential_issuer": 4}"#),
        Err(IssuanceError::Malformed)
    );
    let no_ids = r#"{"credential_issuer": "https://issuer.example", "credential_configuration_ids": [], "grants": {"pre-authorized_code": {"pre-authorized_code": "abc123"}}}"#;
    assert_eq!(IssuanceState::from_offer(no_ids), Err(IssuanceError::Malformed));
    let bad_length = r#"{"credential_issuer": "https://issuer.example", "credential_configuration_ids": ["a"], "grants": {"pre-authorized_code": {"pre-authorized_code": "abc123", "tx_code": {"length": "four"}}}}"#;
    assert_eq!(IssuanceState::from_offer(bad_length), Err(IssuanceError::Malformed));
}

#[test]
fn decode_names_the_step_that_fails() {
    assert_eq!(CredentialOffer::decode("%C3%28"), Err(DecodeError::Encoding));
    assert!(matches!(CredentialOffer::decode("%7B"), Err(DecodeError::Syntax { .. })));
    assert_eq!(CredentialOffer::decode("%7B%7D"), Err(DecodeError::Malformed));
    assert_eq!(CredentialOffer::decode(&encoded(OFFER)), Ok(offer()));
}

#[test]
fn issuance_errors_have_their_text() {
    assert_eq!(IssuanceError::Encoding.to_string(), "offer is not percent-encoded text");
    assert_eq!(
        IssuanceError::Syntax { message: "eof".to_string() }.to_string(),
        "offer is not JSON: eof"
    );
    assert_eq!(
        IssuanceError::Malformed.to_string(),
        "offer lacks a member or holds one of the wrong type"
    );
    assert_eq!(
        IssuanceError::UnsupportedConfiguration.to_string(),
        "issuer has no configuration for a credential on offer"
    );
    assert_eq!(
        IssuanceError::InvalidPin.to_string(),
        "PIN is not of the length and characters asked for"
    );
}

#[test]
fn tx_code_accepts_what_matches_length_and_mode() {
    let numeric = tx_code();
    assert!(numeric.accepts("1234"));
    assert!(!numeric.accepts("123"));
    assert!(!numeric.accepts("12345"));
    assert!(!numeric.accepts("12a4"));
    assert!(!numeric.accepts(""));
    let text = TxCode { input_mode: Some("text".to_string()), length: Some(3), description: None };
    assert!(text.accepts("a1é"));
    assert!(!text.accepts("a1"));
    let any = TxCode { input_mode: None, length: None, description: None };
    assert!(any.accepts(""));
    assert!(any.accepts("0123456789"));
    assert!(!any.accepts("x"));
    let negative = TxCode { input_mode: None, length: Some(-1), description: None };
    assert!(!negative.accepts(""));
}

#[test]
fn needs_logo_and_background_until_they_are_fetched() {
    let mut offered = OfferedCredential::new(configuration());
    assert!(offered.needs_logo());
    assert!(offered.needs_background());
    offered.set_logo(image("logo"));
    assert!(!offered.needs_logo());
    assert!(offered.needs_background());
    offered.set_background(image("background"));
    assert!(!offered.needs_logo());
    assert!(!offered.needs_background());
    offered.set_logo(image("another"));
    offered.change(&Change::Received);
    offered.change(&Change::Stored);
    assert!(!offered.needs_logo());
    assert!(!offered.needs_background());
    assert_eq!(offered.logo, Some(image("logo")));
    assert!(offered.received && offered.stored);
}

#[test]
fn nothing_is_fetched_where_there_is_no_address() {
    let mut config = configuration();
    config.display[0].logo = None;
    config.display[0].background_image.as_mut().unwrap().uri = None;
    let offered = OfferedCredential::new(config);
    assert!(!offered.needs_logo());
    assert!(!offered.needs_background());
    let mut bare = configuration();
    bare.display.clear();
    let offered = OfferedCredential::new(bare);
    assert!(!offered.needs_logo());
    assert!(!offered.needs_background());
}

#[test]
fn images_come_in_in_either_order() {
    let mut first = OfferedCredential::new(configuration());
    first.set_logo(image("logo"));
    first.set_background(image("background"));
    let mut second = OfferedCredential::new(configuration());
    second.set_background(image("background"));
    second.set_logo(image("logo"));
    assert_eq!(first, second);

    let mut one = with_metadata();
    one.change("EmployeeID", &Change::Logo(image("logo")));
    one.change("EmployeeID", &Change::Background(image("background")));
    let mut other = with_metadata();
    other.change("EmployeeID", &Change::Background(image("background")));
    other.change("EmployeeID", &Change::Logo(image("logo")));
    assert_eq!(one, other);
}

#[test]
fn issuer_metadata_opens_the_flow() {
    let state = with_metadata();
    match &state {
        IssuanceState::IssuerMetadata { flow, offered } => {
            assert_eq!(flow.issuance_id, "issuance-1");
            assert_eq!(flow.issuer_name, "Example Issuer");
            assert_eq!(flow.pin, None);
            assert_eq!(flow.token, None);
            assert_eq!(offered.entries.len(), 1);
            assert_eq!(offered.entries[0].0, "EmployeeID");
            assert_eq!(offered.entries[0].1, OfferedCredential::new(configuration()));
        }
        other => panic!("unexpected {:?}", other),
    }
    assert_eq!(
        state.image_requests(),
        vec![
            ImageRequest {
                kind: ImageKind::Logo,
                config_id: "EmployeeID".to_string(),
                uri: "https://vercre.github.io/assets/employee.png".to_string(),
            },
            ImageRequest {
                kind: ImageKind::Background,
                config_id: "EmployeeID".to_string(),
                uri: "https://vercre.github.io/assets/employee-background.png".to_string(),
            },
        ]
    );
    assert_eq!(state.issuance_id(), Some("issuance-1".to_string()));
}

#[test]
fn issuer_metadata_without_the_configuration_is_refused() {
    let state = IssuanceState::from_offer(&encoded(OFFER)).unwrap();
    let mut other = issuer();
    other.configurations[0].0 = "Other".to_string();
    let (next, error) = state.issuer(&other);
    assert_eq!(error, Some(IssuanceError::UnsupportedConfiguration));
    assert_eq!(next, IssuanceState::Offered { offer: offer(), grant: grant() });
}

#[test]
fn offered_map_holds_one_entry_for_each_identifier() {
    let ids = vec!["EmployeeID".to_string(), "EmployeeID".to_string()];
    let map = OfferedMap::from_issuer(&ids, &issuer()).unwrap();
    assert_eq!(map.entries.len(), 1);
    assert!(map.contains("EmployeeID"));
    assert!(!map.contains("Other"));
    assert_eq!(map.get("EmployeeID"), Some(&OfferedCredential::new(configuration())));
    assert_eq!(map.get("Other"), None);
    assert!(!map.all_settled());
    assert!(OfferedMap::new().all_settled());
    assert_eq!(OfferedMap::from_issuer(&vec!["Other".to_string()], &issuer()), None);
}

#[test]
fn a_wrong_pin_is_refused_and_the_flow_stays() {
    let state = with_metadata();
    let before = state.clone();
    let (state, error) = state.pin("123");
    assert_eq!(error, Some(IssuanceError::InvalidPin));
    assert_eq!(state, before);
    let (state, error) = state.pin("abcd");
    assert_eq!(error, Some(IssuanceError::InvalidPin));
    assert_eq!(state, before);
    assert_eq!(state.token_request(), None);
}

#[test]
fn accept_waits_for_the_pin() {
    let state = with_metadata().accept();
    assert!(matches!(state, IssuanceState::Accepted { .. }));
    assert_eq!(state.token_request(), None);
    let (state, error) = state.pin("1234");
    assert_eq!(error, None);
    assert!(matches!(state, IssuanceState::Accepted { .. }));
    assert_eq!(
        state.token_request(),
        Some(TokenRequest {
            credential_issuer: "https://issuer.example".to_string(),
            client_id: "96bfb9cb-0513-7d64-5532-bed74c48f9ab".to_string(),
            grant_type: "urn:ietf:params:oauth:grant-type:pre-authorized_code".to_string(),
            pre_authorized_code: "abc123".to_string(),
            tx_code: Some("1234".to_string()),
        })
    );
}

#[test]
fn a_flow_without_tx_code_needs_no_pin() {
    let text = r#"{"credential_issuer": "https://issuer.example", "credential_configuration_ids": ["EmployeeID"], "grants": {"pre-authorized_code": {"pre-authorized_code": "abc123"}}}"#;
    let state = IssuanceState::from_offer(&encoded(text)).unwrap();
    let (state, _) = state.issuer(&issuer());
    let (state, error) = state.pin("whatever");
    assert_eq!(error, None);
    let state = state.accept();
    let request = state.token_request().unwrap();
    assert_eq!(request.tx_code, None);
    assert_eq!(request.pre_authorized_code, "abc123");
}

#[test]
fn the_flow_moves_through_its_states() {
    let (state, _) = with_metadata().pin("1234");
    assert_eq!(state.clone().token(token()), state, "no token before the offer is accepted");
    let state = state.accept();
    assert_eq!(state.proof_request(), None);
    let state = state.token(token());
    assert!(matches!(state, IssuanceState::Token { .. }));
    assert_eq!(state.token_request(), None);
    assert_eq!(
        state.proof_request(),
        Some(ProofRequest {
            credential_issuer: "https://issuer.example".to_string(),
            client_id: "96bfb9cb-0513-7d64-5532-bed74c48f9ab".to_string(),
            c_nonce: Some("nonce".to_string()),
        })
    );
    assert!(state.credential_requests().is_empty());
    let state = state.proven("jwt".to_string());
    assert!(matches!(state, IssuanceState::Proof { .. }));
    assert_eq!(
        state.credential_requests(),
        vec![(
            "EmployeeID".to_string(),
            CredentialRequest {
                credential_issuer: "https://issuer.example".to_string(),
                access_token: "access".to_string(),
                credential_configuration_id: "EmployeeID".to_string(),
                proof_type: "jwt".to_string(),
                jwt: "jwt".to_string(),
            }
        )]
    );
    assert_eq!(state.credential("Other", &issued()), None);
    let credential = state.credential("EmployeeID", &issued()).unwrap();
    assert_eq!(credential.id, "https://issuer.example/credentials/1");
    assert_eq!(credential.issuer_name, "Example Issuer");
    assert_eq!(credential.format, "jwt_vc_json");
    assert_eq!(credential.display, configuration().display);
    assert_eq!(credential.claim_definitions, configuration().claims());
    let mut state = state;
    state.change("EmployeeID", &Change::Received);
    assert_eq!(state.credential("EmployeeID", &issued()), None, "a credential is taken once");
    assert!(state.credential_requests().is_empty());
    let state = state.stored("Other");
    assert!(matches!(state, IssuanceState::Proof { .. }));
    let state = state.stored("EmployeeID");
    assert_eq!(state, IssuanceState::Inactive);
}

#[test]
fn a_deferred_credential_settles_the_flow() {
    let (state, _) = with_metadata().pin("1234");
    let state = state.accept().token(token());
    assert_eq!(state.clone().deferred("EmployeeID"), state, "nothing is awaited before the proof");
    let state = state.proven("jwt".to_string());
    assert!(state.awaits("EmployeeID"));
    assert!(!state.awaits("Other"));
    assert_eq!(state.clone().deferred("Other"), state);
    assert_eq!(state.deferred("EmployeeID"), IssuanceState::Inactive);

    let mut model = Model::new();
    update(&mut model, Event::IssuanceOffer(encoded(OFFER)));
    update(&mut model, Event::IssuanceIssuer(Ok(issuer())));
    update(&mut model, Event::IssuancePin("1234".to_string()));
    update(&mut model, Event::IssuanceAccepted);
    update(&mut model, Event::IssuanceToken(Ok(token())));
    update(&mut model, Event::IssuanceProof(Ok("jwt".to_string())));
    let effects = update(
        &mut model,
        Event::IssuanceDeferred(Ok(("EmployeeID".to_string(), "transaction-1".to_string()))),
    );
    assert_eq!(effects, vec![list_effect(), Effect::Render]);
    assert_eq!(model.issuance, None);
    assert_eq!(model.active_view, Aspect::CredentialList);
    let effects = update(
        &mut model,
        Event::IssuanceDeferred(Err(HttpError { message: "gone".to_string() })),
    );
    assert_eq!(effects, vec![Effect::Render]);
    assert_eq!(model.error, Some("gone".to_string()));
}

#[test]
fn a_flow_of_two_credentials_ends_when_both_are_settled() {
    let text = r#"{"credential_issuer": "https://issuer.example", "credential_configuration_ids": ["EmployeeID", "Developer"], "grants": {"pre-authorized_code": {"pre-authorized_code": "abc123"}}}"#;
    let mut both = issuer();
    both.configurations.push(("Developer".to_string(), CredentialConfiguration::default()));
    let state = IssuanceState::from_offer(&encoded(text)).unwrap();
    let (state, error) = state.issuer(&both);
    assert_eq!(error, None);
    let state = state.accept().token(token()).proven("jwt".to_string());
    let requests = state.credential_requests();
    assert_eq!(requests.len(), 2);
    assert_eq!(requests[0].0, "EmployeeID");
    assert_eq!(requests[1].0, "Developer");
    let state = state.deferred("Developer");
    assert!(matches!(state, IssuanceState::Proof { .. }));
    assert_eq!(state.credential_requests().len(), 1);
    assert_eq!(state.credential("Developer", &issued()), None);
    let mut state = state;
    state.change("EmployeeID", &Change::Received);
    assert_eq!(state.stored("EmployeeID"), IssuanceState::Inactive);
}

#[test]
fn stale_answers_change_nothing() {
    let inactive = IssuanceState::Inactive;
    assert_eq!(inactive.clone().issuer(&issuer()), (IssuanceState::Inactive, None));
    assert_eq!(inactive.clone().pin("1234"), (IssuanceState::Inactive, None));
    assert_eq!(inactive.clone().accept(), IssuanceState::Inactive);
    assert_eq!(inactive.clone().token(token()), IssuanceState::Inactive);
    assert_eq!(inactive.clone().proven("jwt".to_string()), IssuanceState::Inactive);
    assert_eq!(inactive.clone().stored("EmployeeID"), IssuanceState::Inactive);
    assert!(inactive.image_requests().is_empty());
    let state = with_metadata();
    assert_eq!(state.clone().issuer(&issuer()), (state.clone(), None));
    assert_eq!(state.clone().proven("jwt".to_string()), state);
    let mut unchanged = state.clone();
    unchanged.change("Other", &Change::Logo(image("logo")));
    assert_eq!(unchanged, state);
}

#[test]
fn cancel_resets_every_state() {
    let mut offered = IssuanceState::from_offer(&encoded(OFFER)).unwrap();
    assert_eq!(offered.cancel(), None);
    assert_eq!(offered, IssuanceState::Inactive);
    let mut state = with_metadata();
    assert_eq!(state.cancel(), Some("issuance-1".to_string()));
    assert_eq!(state, IssuanceState::Inactive);
    let (state, _) = with_metadata().pin("1234");
    let mut state = state.accept().token(token()).proven("jwt".to_string());
    assert_eq!(state.cancel(), Some("issuance-1".to_string()));
    assert_eq!(state, IssuanceState::Inactive);
    let mut inactive = IssuanceState::Inactive;
    assert_eq!(inactive.cancel(), None);
}

#[test]
fn flow_starts_from_offer_and_issuer() {
    let flow = Flow::start(offer(), grant(), &issuer());
    assert_eq!(flow.issuance_id, "issuance-1");
    assert!(!flow.pin_ready());
    let (flow, error) = Flow::with_pin(flow, "12");
    assert_eq!(error, Some(IssuanceError::InvalidPin));
    let (flow, error) = Flow::with_pin(flow, "0000");
    assert_eq!(error, None);
    assert!(flow.pin_ready());
    assert_eq!(flow.duplicate(), flow);
    assert_eq!(flow.credential_request("EmployeeID", "jwt").access_token, "");
}

fn update(model: &mut Model, event: Event) -> Vec<Effect> {
    App.update(event, model)
}

fn list_effect() -> Effect {
    Effect::Store {
        operation: StoreOperation::List { catalog: "credential".to_string() },
        then: StoreThen::CredentialsLoaded,
    }
}

#[test]
fn update_asks_for_metadata_when_an_offer_comes_in() {
    let mut model = Model::new();
    assert_eq!(update(&mut model, Event::ScanIssuanceOffer), vec![Effect::Render]);
    assert_eq!(model.active_view, Aspect::IssuanceScan);
    let effects = update(&mut model, Event::IssuanceOffer(encoded(OFFER)));
    assert_eq!(
        effects,
        vec![
            Effect::Metadata {
                request: MetadataRequest {
                    credential_issuer: "https://issuer.example".to_string()
                }
            },
            Effect::Render,
        ]
    );
    assert_eq!(model.issuance, Some(IssuanceState::Offered { offer: offer(), grant: grant() }));
    assert_eq!(model.error, None);
}

#[test]
fn update_shows_an_offer_that_cannot_be_read_as_an_error() {
    let mut model = Model::new();
    let effects = update(&mut model, Event::IssuanceOffer("{}".to_string()));
    assert_eq!(effects, vec![Effect::Render]);
    assert_eq!(model.active_view, Aspect::Error);
    assert_eq!(
        model.error,
        Some("offer lacks a member or holds one of the wrong type".to_string())
    );
    assert_eq!(model.issuance, None);
}

#[test]
fn update_refuses_a_wrong_pin_without_asking_the_issuer() {
    let mut model = Model::new();
    update(&mut model, Event::IssuanceOffer(encoded(OFFER)));
    update(&mut model, Event::IssuanceIssuer(Ok(issuer())));
    let before = model.issuance.clone();
    let effects = update(&mut model, Event::IssuancePin("12345".to_string()));
    assert_eq!(effects, vec![Effect::Render]);
    assert_eq!(model.active_view, Aspect::Error);
    assert_eq!(
        model.error,
        Some("PIN is not of the length and characters asked for".to_string())
    );
    assert_eq!(model.issuance, before);
    let effects = update(&mut model, Event::IssuanceAccepted);
    assert_eq!(effects, vec![Effect::Render], "no token request without a PIN");
    assert!(matches!(model.issuance, Some(IssuanceState::Accepted { .. })));
}

#[test]
fn update_cancels_from_every_state() {
    let mut model = Model::new();
    assert_eq!(update(&mut model, Event::CancelIssuance), vec![Effect::Render]);
    update(&mut model, Event::IssuanceOffer(encoded(OFFER)));
    assert_eq!(update(&mut model, Event::CancelIssuance), vec![Effect::Render]);
    assert_eq!(model.issuance, None);
    assert_eq!(model.active_view, Aspect::CredentialList);
    update(&mut model, Event::IssuanceOffer(encoded(OFFER)));
    update(&mut model, Event::IssuanceIssuer(Ok(issuer())));
    update(&mut model, Event::IssuancePin("1234".to_string()));
    update(&mut model, Event::IssuanceAccepted);
    update(&mut model, Event::IssuanceToken(Ok(token())));
    update(&mut model, Event::IssuanceProof(Ok("jwt".to_string())));
    assert!(matches!(model.issuance, Some(IssuanceState::Proof { .. })));
    assert_eq!(
        update(&mut model, Event::CancelIssuance),
        vec![Effect::Purge { issuance_id: "issuance-1".to_string() }, Effect::Render]
    );
    assert_eq!(model.issuance, None);
    assert_eq!(model.active_view, Aspect::CredentialList);
    let effects = update(&mut model, Event::IssuanceCredential(Ok(("EmployeeID".to_string(), issued()))));
    assert_eq!(effects, vec![Effect::Render], "an answer to a flow that is over changes nothing");
    assert_eq!(model.issuance, None);
}

#[test]
fn update_shows_failures_and_keeps_the_flow() {
    let mut model = Model::new();
    update(&mut model, Event::IssuanceOffer(encoded(OFFER)));
    update(&mut model, Event::IssuanceIssuer(Ok(issuer())));
    update(&mut model, Event::IssuancePin("1234".to_string()));
    update(&mut model, Event::IssuanceAccepted);
    let before = model.issuance.clone();
    let effects = update(
        &mut model,
        Event::IssuanceToken(Err(HttpError { message: "503 from issuer".to_string() })),
    );
    assert_eq!(effects, vec![Effect::Render]);
    assert_eq!(model.active_view, Aspect::Error);
    assert_eq!(model.error, Some("503 from issuer".to_string()));
    assert_eq!(model.issuance, before);
    let effects = update(&mut model, Event::IssuanceAccepted);
    assert!(matches!(effects[0], Effect::Token { .. }), "the holder may try again");
    let effects = update(&mut model, Event::IssuanceProof(Err("no key".to_string())));
    assert_eq!(effects, vec![Effect::Render]);
    assert_eq!(model.error, Some("no key".to_string()));
    let effects = update(&mut model, Event::Error("broken".to_string()));
    assert_eq!(effects, vec![Effect::Render]);
    assert_eq!(model.error, Some("broken".to_string()));
}

#[test]
fn update_handles_the_credential_events() {
    let mut model = Model::new();
    assert_eq!(update(&mut model, Event::Ready), vec![list_effect(), Effect::Render]);
    assert_eq!(update(&mut model, Event::SelectCredential("c1".to_string())), vec![Effect::Render]);
    assert_eq!(model.active_view, Aspect::CredentialDetail);
    assert_eq!(model.credential.id, Some("c1".to_string()));
    assert_eq!(
        update(&mut model, Event::DeleteCredential("c1".to_string())),
        vec![Effect::Store {
            operation: StoreOperation::Delete {
                catalog: "credential".to_string(),
                id: "c1".to_string()
            },
            then: StoreThen::CredentialDeleted,
        }]
    );
    assert_eq!(
        update(&mut model, Event::CredentialDeleted(Ok(()))),
        vec![list_effect(), Effect::Render]
    );
    assert_eq!(model.credential.id, None);
    assert_eq!(update(&mut model, Event::CredentialStored(Ok(()))), vec![list_effect()]);
    assert_eq!(update(&mut model, Event::CredentialsLoaded(Ok(vec![]))), vec![Effect::Render]);
    assert_eq!(model.active_view, Aspect::CredentialList);
    let credential = Credential { id: "c1".to_string(), ..Credential::default() };
    let entries = vec![
        wallet::capabilities::store::StoreEntry::Absent,
        wallet::capabilities::store::StoreEntry::Present(credential.encode().unwrap()),
    ];
    update(&mut model, Event::CredentialsLoaded(Ok(entries)));
    assert_eq!(model.credential.credentials, vec![credential]);
    let broken = vec![wallet::capabilities::store::StoreEntry::Present(b"{}".to_vec())];
    update(&mut model, Event::CredentialsLoaded(Ok(broken)));
    assert_eq!(model.active_view, Aspect::Error);
    assert_eq!(model.error, Some("stored credential cannot be read".to_string()));
    assert_eq!(model.credential.credentials.len(), 1);
}

#[test]
fn model_takes_in_a_scanned_offer() {
    let mut model = Model::new();
    model.issuance_offer(&encoded(OFFER));
    assert_eq!(model.issuance, Some(IssuanceState::Offered { offer: offer(), grant: grant() }));
    assert_eq!(model.error, None);
    model.issuance_offer("%7B%7D");
    assert_eq!(model.active_view, Aspect::Error);
    assert_eq!(
        model.error,
        Some("offer lacks a member or holds one of the wrong type".to_string())
    );
    assert_eq!(model.cancel_issuance(), None);
    assert_eq!(model.issuance, None);
    assert_eq!(model.active_view, Aspect::CredentialList);
}

#[test]
fn protocol_data_round_trips_through_json() {
    assert_eq!(CredentialOffer::from_json(&offer().to_json()), Some(offer()));
    assert_eq!(
        String::from_utf8(offer().to_json().print().unwrap()).unwrap(),
        r#"{"credential_configuration_ids":["EmployeeID"],"credential_issuer":"https://issuer.example","grants":{"pre-authorized_code":{"pre-authorized_code":"abc123","tx_code":{"description":null,"input_mode":"numeric","length":4}}}}"#
    );
    assert_eq!(TokenResponse::from_json(&token().to_json()), Some(token()));
    assert_eq!(IssuedCredential::from_json(&issued().to_json()), Some(issued()));
    assert_eq!(
        CredentialConfiguration::from_json(&configuration().to_json()),
        Some(configuration())
    );
    assert_eq!(TxCode::from_json(&Json::Str("4".to_string())), None);
    assert_eq!(offer().duplicate(), offer());
    assert_eq!(issued().duplicate(), issued());
}

#[test]
fn a_text_that_is_no_json_is_refused_with_the_message_of_the_parser() {
    let message = "EOF while parsing an object at line 1 column 1".to_string();
    assert_eq!(
        CredentialOffer::decode("%7B"),
        Err(DecodeError::Syntax { message: message.clone() })
    );
    assert_eq!(IssuanceState::from_offer("%7B"), Err(IssuanceError::Syntax { message }));
}
