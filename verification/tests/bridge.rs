use wallet::app::{Aspect, Effect, Event, HttpError, StoreThen};
use wallet::bridge::{resume, Bridge, BridgeError, Request, Response};
use wallet::capabilities::memory::MemoryStore;
use wallet::capabilities::store::{
    StoreEntry, StoreError, StoreOperation, StoreResponse, StoreResult,
};
use wallet::holder::credential::{Credential, ImageData, SubjectClaims};
use wallet::holder::metadata::{CredentialConfiguration, IssuedCredential, Issuer, TokenResponse};
use wallet::holder::request::MetadataRequest;
use wallet::json::Json;
use wallet::model::issuance::{ImageKind, ImageRequest, IssuanceState};

const OFFER: &str = r#"{"credential_issuer": "https://issuer.example", "credential_configuration_ids": ["EmployeeID"], "grants": {"pre-authorized_code": {"pre-authorized_code": "abc123", "tx_code": {"input_mode":"numeric","length":4}}}}"#;

const CONFIGURATION: &str = r##"{
    "format": "jwt_vc_json",
    "display": [
        {
            "name": "Employee ID",
            "logo": {"uri": "https://issuer.example/logo.png"},
            "background_image": {"uri": "https://issuer.example/background.png"}
        }
    ],
    "credential_definition": {
        "credentialSubject": {"email": {"display": [{"name": "Email"}]}}
    }
}"##;

fn issuer() -> Issuer {
    let configuration =
        CredentialConfiguration::from_json(&Json::parse(CONFIGURATION.as_bytes()).unwrap())
            .unwrap();
    Issuer {
        issuance_id: "issuance-1".to_string(),
        credential_issuer: "https://issuer.example".to_string(),
        name: "Example Issuer".to_string(),
        configurations: vec![("EmployeeID".to_string(), configuration)],
    }
}

fn token() -> TokenResponse {
    TokenResponse {
        access_token: "access".to_string(),
        token_type: "Bearer".to_string(),
        expires_in: None,
        c_nonce: None,
        c_nonce_expires_in: None,
    }
}

fn issued() -> IssuedCredential {
    IssuedCredential {
        id: "https://issuer.example/credentials/1".to_string(),
        issuer: "https://issuer.example".to_string(),
        issued: "header.payload.signature".to_string(),
        type_: vec!["VerifiableCredential".to_string()],
        subject_claims: vec![SubjectClaims {
            id: None,
            claims: Json::Obj(vec![(
                "email".to_string(),
                Json::Str("holder@example.com".to_string()),
            )]),
        }],
        issuance_date: "2023-11-20T23:21:55Z".to_string(),
        valid_from: None,
        valid_until: None,
    }
}

fn image(data: &str) -> ImageData {
    ImageData { data: data.to_string(), media_type: "image/png".to_string() }
}

fn id_of(requests: &[Request], wanted: fn(&Effect) -> bool) -> usize {
    requests.iter().find(|r| wanted(&r.effect)).and_then(|r| r.id).unwrap()
}

fn transport(requests: &[Request]) -> usize {
    requests
        .iter()
        .filter(|r| {
            matches!(
                r.effect,
                Effect::Token { .. } | Effect::Credential { .. } | Effect::Metadata { .. }
            )
        })
        .count()
}

#[test]
fn issuance_runs_from_offer_to_stored_credential() {
    let mut bridge = Bridge::new();
    let mut store = MemoryStore::new();

    let requests = bridge.process_event(Event::IssuanceOffer(OFFER.to_string()));
    assert_eq!(
        requests,
        vec![
            Request {
                id: Some(0),
                effect: Effect::Metadata {
                    request: MetadataRequest {
                        credential_issuer: "https://issuer.example".to_string()
                    }
                }
            },
            Request { id: None, effect: Effect::Render },
        ]
    );
    assert!(matches!(bridge.model.issuance, Some(IssuanceState::Offered { .. })));

    let requests = bridge.handle_response(0, Response::Issuer(Ok(issuer()))).unwrap();
    assert_eq!(
        requests,
        vec![
            Request {
                id: Some(0),
                effect: Effect::Image {
                    request: ImageRequest {
                        kind: ImageKind::Logo,
                        config_id: "EmployeeID".to_string(),
                        uri: "https://issuer.example/logo.png".to_string(),
                    }
                }
            },
            Request {
                id: Some(1),
                effect: Effect::Image {
                    request: ImageRequest {
                        kind: ImageKind::Background,
                        config_id: "EmployeeID".to_string(),
                        uri: "https://issuer.example/background.png".to_string(),
                    }
                }
            },
            Request { id: None, effect: Effect::Render },
        ]
    );
    assert_eq!(bridge.model.active_view, Aspect::IssuanceOffer);
    assert_eq!(bridge.shown().issuance_view.issuer_name, "Example Issuer");
    assert_eq!(bridge.shown().issuance_view.offered.name, "Employee ID");
    assert_eq!(bridge.shown().issuance_view.tx_code.length, 4);

    let requests = bridge.process_event(Event::IssuanceAccepted);
    assert_eq!(transport(&requests), 0, "an accept without a PIN asks nothing of the issuer");
    assert!(matches!(bridge.model.issuance, Some(IssuanceState::Accepted { .. })));

    // The background comes in before the logo.
    let requests = bridge.handle_response(1, Response::Image(Ok(image("background")))).unwrap();
    assert_eq!(requests, vec![Request { id: None, effect: Effect::Render }]);
    bridge.handle_response(0, Response::Image(Ok(image("logo")))).unwrap();
    assert_eq!(bridge.shown().issuance_view.offered.logo, image("logo"));
    assert_eq!(bridge.shown().issuance_view.offered.background, image("background"));

    let requests = bridge.process_event(Event::IssuancePin("1234".to_string()));
    assert_eq!(requests, vec![Request { id: None, effect: Effect::Render }]);
    let requests = bridge.process_event(Event::IssuanceAccepted);
    assert_eq!(transport(&requests), 1);
    let token_id = id_of(&requests, |e| matches!(e, Effect::Token { .. }));
    match &requests[0].effect {
        Effect::Token { request } => {
            assert_eq!(request.pre_authorized_code, "abc123");
            assert_eq!(request.tx_code, Some("1234".to_string()));
        }
        other => panic!("unexpected {:?}", other),
    }

    let requests = bridge.handle_response(token_id, Response::Token(Ok(token()))).unwrap();
    assert!(matches!(bridge.model.issuance, Some(IssuanceState::Token { .. })));
    let proof_id = id_of(&requests, |e| matches!(e, Effect::Proof { .. }));

    let requests =
        bridge.handle_response(proof_id, Response::Proof(Ok("jwt".to_string()))).unwrap();
    assert!(matches!(bridge.model.issuance, Some(IssuanceState::Proof { .. })));
    assert_eq!(transport(&requests), 1);
    let credential_id = id_of(&requests, |e| matches!(e, Effect::Credential { .. }));

    let requests =
        bridge.handle_response(credential_id, Response::Credential(Ok(issued()))).unwrap();
    let save_id = id_of(&requests, |e| matches!(e, Effect::Store { .. }));
    let operation = match &requests[0].effect {
        Effect::Store { operation, then } => {
            assert_eq!(then, &StoreThen::IssuanceStored { config_id: "EmployeeID".to_string() });
            operation.clone()
        }
        other => panic!("unexpected {:?}", other),
    };
    match &operation {
        StoreOperation::Save { catalog, id, .. } => {
            assert_eq!(catalog, "credential");
            assert_eq!(id, "https://issuer.example/credentials/1");
        }
        other => panic!("unexpected {:?}", other),
    }

    let result = store.respond(&operation);
    let requests = bridge.handle_response(save_id, Response::Store(result)).unwrap();
    assert_eq!(bridge.model.issuance, None);
    assert_eq!(bridge.model.active_view, Aspect::CredentialList);
    let list_id = id_of(&requests, |e| matches!(e, Effect::Store { .. }));
    let operation = match &requests[0].effect {
        Effect::Store { operation, then } => {
            assert_eq!(then, &StoreThen::CredentialsLoaded);
            assert_eq!(operation, &StoreOperation::List { catalog: "credential".to_string() });
            operation.clone()
        }
        other => panic!("unexpected {:?}", other),
    };

    let result = store.respond(&operation);
    bridge.handle_response(list_id, Response::Store(result)).unwrap();
    assert_eq!(store.records.len(), 1);
    assert_eq!(store.records[0].catalog, "credential");
    assert_eq!(store.records[0].id, "https://issuer.example/credentials/1");
    assert_eq!(bridge.model.credential.credentials.len(), 1);
    let kept = &bridge.model.credential.credentials[0];
    assert_eq!(kept.id, "https://issuer.example/credentials/1");
    assert_eq!(kept.issuer_name, "Example Issuer");
    assert_eq!(kept.logo, Some(image("logo")));
    assert_eq!(kept.background, Some(image("background")));
    assert_eq!(Credential::decode(&store.records[0].data).as_ref(), Some(kept));
    assert_eq!(bridge.model.error, None);
    assert!(bridge.open.iter().all(|slot| slot.is_none()));
}

#[test]
fn a_request_gets_one_response_and_no_more() {
    let mut bridge = Bridge::new();
    let requests = bridge.process_event(Event::Ready);
    assert_eq!(requests[0].id, Some(0));
    assert_eq!(requests[1], Request { id: None, effect: Effect::Render });
    assert_eq!(
        bridge.handle_response(7, Response::Store(StoreResult::Success {
            response: StoreResponse::List { entries: vec![] }
        })),
        Err(BridgeError::UnknownRequest)
    );
    let listed =
        || Response::Store(StoreResult::Success { response: StoreResponse::List { entries: vec![] } });
    assert_eq!(
        bridge.handle_response(0, listed()),
        Ok(vec![Request { id: None, effect: Effect::Render }])
    );
    assert_eq!(bridge.handle_response(0, listed()), Err(BridgeError::UnknownRequest));
}

#[test]
fn a_response_of_the_wrong_kind_is_refused() {
    let mut bridge = Bridge::new();
    bridge.process_event(Event::Ready);
    assert_eq!(
        bridge.handle_response(0, Response::Proof(Ok("jwt".to_string()))),
        Err(BridgeError::UnexpectedResponse)
    );
    assert_eq!(
        bridge.handle_response(0, Response::Proof(Ok("jwt".to_string()))),
        Err(BridgeError::UnknownRequest)
    );
}

#[test]
fn identifiers_are_given_out_again_once_they_are_free() {
    let mut bridge = Bridge::new();
    let first = bridge.process_event(Event::Ready);
    let second = bridge.process_event(Event::CredentialStored(Ok(())));
    assert_eq!(first[0].id, Some(0));
    assert_eq!(second[0].id, Some(1));
    bridge
        .handle_response(
            0,
            Response::Store(StoreResult::Failure {
                error: StoreError::InvalidRequest { message: "no".to_string() },
            }),
        )
        .unwrap();
    assert_eq!(bridge.model.error, Some("invalid store request no".to_string()));
    let third = bridge.process_event(Event::CredentialStored(Ok(())));
    assert_eq!(third[0].id, Some(0));
    let fourth = bridge.process_event(Event::CredentialStored(Ok(())));
    assert_eq!(fourth[0].id, Some(2));
}

#[test]
fn resume_names_the_event_of_each_answer() {
    let list = Effect::Store {
        operation: StoreOperation::List { catalog: "credential".to_string() },
        then: StoreThen::CredentialsLoaded,
    };
    assert_eq!(
        resume(
            list.clone(),
            Response::Store(StoreResult::Success {
                response: StoreResponse::List { entries: vec![StoreEntry::Absent] }
            })
        ),
        Some(Event::CredentialsLoaded(Ok(vec![StoreEntry::Absent])))
    );
    assert_eq!(
        resume(list, Response::Store(StoreResult::Success { response: StoreResponse::Saved })),
        Some(Event::CredentialsLoaded(Err(StoreError::InvalidResponse {
            message: "unexpected response for List operation".to_string()
        })))
    );
    let stored = Effect::Store {
        operation: StoreOperation::Save {
            catalog: "credential".to_string(),
            id: "c".to_string(),
            data: vec![],
        },
        then: StoreThen::IssuanceStored { config_id: "EmployeeID".to_string() },
    };
    assert_eq!(
        resume(stored, Response::Store(StoreResult::Success { response: StoreResponse::Saved })),
        Some(Event::IssuanceStored(Ok("EmployeeID".to_string())))
    );
    let logo = Effect::Image {
        request: ImageRequest {
            kind: ImageKind::Logo,
            config_id: "EmployeeID".to_string(),
            uri: "https://issuer.example/logo.png".to_string(),
        },
    };
    assert_eq!(
        resume(logo.clone(), Response::Image(Ok(image("logo")))),
        Some(Event::IssuanceLogo(Ok(("EmployeeID".to_string(), image("logo")))))
    );
    assert_eq!(
        resume(logo, Response::Image(Err(HttpError { message: "404".to_string() }))),
        Some(Event::IssuanceLogo(Err(HttpError { message: "404".to_string() })))
    );
    assert_eq!(resume(Effect::Render, Response::Proof(Ok("jwt".to_string()))), None);
}

#[test]
fn a_response_to_an_issuance_that_is_over_is_dropped() {
    let mut bridge = Bridge::new();
    bridge.process_event(Event::IssuanceOffer(OFFER.to_string()));
    bridge.handle_response(0, Response::Issuer(Ok(issuer()))).unwrap();
    // The requests for the two images are open under 0 and 1.
    bridge.process_event(Event::CancelIssuance);
    bridge.process_event(Event::IssuanceOffer(OFFER.to_string()));
    let mut second = issuer();
    second.issuance_id = "issuance-2".to_string();
    let requests = bridge.handle_response(2, Response::Issuer(Ok(second))).unwrap();
    assert_eq!(requests[0].id, Some(2));
    assert_eq!(requests[1].id, Some(3));
    let before = bridge.model.clone();
    assert_eq!(bridge.handle_response(0, Response::Image(Ok(image("late")))), Ok(vec![]));
    assert_eq!(bridge.model, before);
    assert_eq!(bridge.handle_response(0, Response::Image(Ok(image("late")))), Err(BridgeError::UnknownRequest));
    bridge.handle_response(2, Response::Image(Ok(image("logo")))).unwrap();
    assert_eq!(bridge.shown().issuance_view.offered.logo, image("logo"));
}

#[test]
fn a_deferred_credential_comes_in_as_its_own_event() {
    let credential = Effect::Credential {
        config_id: "EmployeeID".to_string(),
        request: wallet::holder::request::CredentialRequest::default(),
    };
    assert_eq!(
        resume(credential.clone(), Response::Deferred(Ok("t1".to_string()))),
        Some(Event::IssuanceDeferred(Ok(("EmployeeID".to_string(), "t1".to_string()))))
    );
    assert_eq!(
        resume(credential, Response::Credential(Ok(issued()))),
        Some(Event::IssuanceCredential(Ok(("EmployeeID".to_string(), issued()))))
    );
    assert_eq!(resume(Effect::Render, Response::Deferred(Ok("t1".to_string()))), None);
}

#[test]
fn metadata_of_another_issuer_is_stale() {
    let mut bridge = Bridge::new();
    bridge.process_event(Event::IssuanceOffer(OFFER.to_string()));
    let mut other = issuer();
    other.credential_issuer = "https://other.example".to_string();
    let requests = bridge.handle_response(0, Response::Issuer(Ok(other))).unwrap();
    assert_eq!(requests, vec![Request { id: None, effect: Effect::Render }]);
    assert!(matches!(bridge.model.issuance, Some(IssuanceState::Offered { .. })));
    assert_eq!(bridge.model.error, None);
}
