use wallet::capabilities::key::{
    self, KeyStoreEntry, KeyStoreError, KeyStoreOperation, KeyStoreResponse, KeyStoreResult,
};
use wallet::capabilities::memory::MemoryStore;
use wallet::capabilities::store::{
    self, Catalog, StoreEntry, StoreError, StoreOperation, StoreResponse, StoreResult,
};
use wallet::config::client_id;
use wallet::json::Json;

#[test]
fn client_id_is_the_registered_identifier() {
    assert_eq!(client_id(), "96bfb9cb-0513-7d64-5532-bed74c48f9ab");
}

#[test]
fn catalog_has_its_name() {
    assert_eq!(Catalog::Credential.to_string(), "credential");
}

#[test]
fn store_errors_have_their_text() {
    let request = StoreError::InvalidRequest { message: "bad".to_string() };
    let response = StoreError::InvalidResponse { message: "worse".to_string() };
    assert_eq!(request.to_string(), "invalid store request bad");
    assert_eq!(response.to_string(), "invalid store response worse");
    assert_eq!(request.duplicate(), request);
}

#[test]
fn store_entry_converts_to_and_from_optional_bytes() {
    assert_eq!(StoreEntry::from(vec![1u8, 2]), StoreEntry::Present(vec![1, 2]));
    assert_eq!(StoreEntry::from(Some(vec![3u8])), StoreEntry::Present(vec![3]));
    assert_eq!(StoreEntry::from(None), StoreEntry::Absent);
    assert_eq!(Option::<Vec<u8>>::from(StoreEntry::Present(vec![4])), Some(vec![4]));
    assert_eq!(Option::<Vec<u8>>::from(StoreEntry::Absent), None);
}

#[test]
fn store_results_unwrap_to_the_answer_of_their_request() {
    let saved = StoreResult::Success { response: StoreResponse::Saved };
    let deleted = StoreResult::Success { response: StoreResponse::Deleted };
    let listed = StoreResult::Success {
        response: StoreResponse::List { entries: vec![StoreEntry::Present(vec![1])] },
    };
    assert_eq!(saved.clone().unwrap_save(), Ok(()));
    assert_eq!(deleted.clone().unwrap_delete(), Ok(()));
    assert_eq!(listed.clone().unwrap_list(), Ok(vec![StoreEntry::Present(vec![1])]));
    let error = StoreError::InvalidRequest { message: "no".to_string() };
    let failed = StoreResult::Failure { error: error.clone() };
    assert_eq!(failed.clone().unwrap_save(), Err(error.clone()));
    assert_eq!(failed.clone().unwrap_list(), Err(error.clone()));
    assert_eq!(failed.unwrap_delete(), Err(error));
}

#[test]
fn store_results_of_another_request_are_invalid_responses() {
    let saved = StoreResult::Success { response: StoreResponse::Saved };
    let deleted = StoreResult::Success { response: StoreResponse::Deleted };
    assert_eq!(
        deleted.clone().unwrap_save(),
        Err(StoreError::InvalidResponse {
            message: "unexpected response for Save operation".to_string()
        })
    );
    assert_eq!(
        saved.clone().unwrap_list(),
        Err(StoreError::InvalidResponse {
            message: "unexpected response for List operation".to_string()
        })
    );
    assert_eq!(
        saved.unwrap_delete(),
        Err(StoreError::InvalidResponse {
            message: "unexpected response for Delete operation".to_string()
        })
    );
}

#[test]
fn store_requests_are_built_from_their_parts() {
    assert_eq!(
        store::list("credential"),
        StoreOperation::List { catalog: "credential".to_string() }
    );
    assert_eq!(
        store::delete("credential", "c1"),
        StoreOperation::Delete { catalog: "credential".to_string(), id: "c1".to_string() }
    );
    let data = Json::Obj(vec![("a".to_string(), Json::Int(1))]);
    assert_eq!(
        store::save("credential", "c1", &data),
        Ok(StoreOperation::Save {
            catalog: "credential".to_string(),
            id: "c1".to_string(),
            data: br#"{"a":1}"#.to_vec(),
        })
    );
    assert_eq!(
        store::save_printed("credential", "c1", Err("broken".to_string())),
        Err(StoreError::InvalidRequest {
            message: "failed to serialize data: broken".to_string()
        })
    );
}

#[test]
fn key_store_errors_have_their_text() {
    let request = KeyStoreError::InvalidRequest { message: "bad".to_string() };
    let response = KeyStoreError::InvalidResponse { message: "worse".to_string() };
    assert_eq!(request.to_string(), "invalid key store request bad");
    assert_eq!(response.to_string(), "invalid key store response worse");
}

#[test]
fn key_store_entry_converts_to_and_from_optional_bytes() {
    assert_eq!(KeyStoreEntry::from(vec![1u8, 2]), KeyStoreEntry::Present(vec![1, 2]));
    assert_eq!(KeyStoreEntry::from(Some(vec![3u8])), KeyStoreEntry::Present(vec![3]));
    assert_eq!(KeyStoreEntry::from(None), KeyStoreEntry::Absent);
    assert_eq!(Option::<Vec<u8>>::from(KeyStoreEntry::Present(vec![4])), Some(vec![4]));
    assert_eq!(Option::<Vec<u8>>::from(KeyStoreEntry::Absent), None);
}

#[test]
fn key_store_results_unwrap_to_the_answer_of_their_request() {
    let retrieved = KeyStoreResult::Success {
        response: KeyStoreResponse::Retrieved { key: KeyStoreEntry::Present(vec![9]) },
    };
    let stored = KeyStoreResult::Success { response: KeyStoreResponse::Stored };
    let deleted = KeyStoreResult::Success { response: KeyStoreResponse::Deleted };
    let secret = KeyStoreResult::Success {
        response: KeyStoreResponse::GeneratedSecret { secret: vec![1, 2, 3] },
    };
    assert_eq!(retrieved.clone().unwrap_get(), Ok(KeyStoreEntry::Present(vec![9])));
    assert_eq!(stored.clone().unwrap_set(), Ok(()));
    assert_eq!(deleted.clone().unwrap_delete(), Ok(()));
    assert_eq!(secret.clone().unwrap_generate_secret(), Ok(vec![1, 2, 3]));
    let error = KeyStoreError::InvalidRequest { message: "no".to_string() };
    let failed = KeyStoreResult::Failure { error: error.clone() };
    assert_eq!(failed.clone().unwrap_get(), Err(error.clone()));
    assert_eq!(failed.clone().unwrap_set(), Err(error.clone()));
    assert_eq!(failed.clone().unwrap_delete(), Err(error.clone()));
    assert_eq!(failed.unwrap_generate_secret(), Err(error));
}

#[test]
fn key_store_results_of_another_request_are_invalid_responses() {
    let stored = KeyStoreResult::Success { response: KeyStoreResponse::Stored };
    let deleted = KeyStoreResult::Success { response: KeyStoreResponse::Deleted };
    assert_eq!(
        stored.clone().unwrap_get(),
        Err(KeyStoreError::InvalidResponse {
            message: "unexpected response for Get operation".to_string()
        })
    );
    assert_eq!(
        deleted.clone().unwrap_set(),
        Err(KeyStoreError::InvalidResponse {
            message: "unexpected response for Set operation".to_string()
        })
    );
    assert_eq!(
        stored.clone().unwrap_delete(),
        Err(KeyStoreError::InvalidResponse {
            message: "unexpected response for Delete operation".to_string()
        })
    );
    assert_eq!(
        stored.unwrap_generate_secret(),
        Err(KeyStoreError::InvalidResponse {
            message: "unexpected response for GenerateSecret operation".to_string()
        })
    );
}

#[test]
fn key_store_requests_are_built_from_their_parts() {
    assert_eq!(
        key::get("k1", "signing"),
        KeyStoreOperation::Get { id: "k1".to_string(), purpose: "signing".to_string() }
    );
    assert_eq!(
        key::delete("k1", "signing"),
        KeyStoreOperation::Delete { id: "k1".to_string(), purpose: "signing".to_string() }
    );
    assert_eq!(key::generate_secret(32), KeyStoreOperation::GenerateSecret { length: 32 });
    assert_eq!(
        key::set("k1", "signing", &Json::Str("secret".to_string())),
        Ok(KeyStoreOperation::Put {
            id: "k1".to_string(),
            purpose: "signing".to_string(),
            data: br#""secret""#.to_vec(),
        })
    );
    assert_eq!(
        key::set_printed("k1", "signing", Err("broken".to_string())),
        Err(KeyStoreError::InvalidRequest {
            message: "failed to serialize key: broken".to_string()
        })
    );
}

fn save(catalog: &str, id: &str, data: &[u8]) -> StoreOperation {
    StoreOperation::Save { catalog: catalog.to_string(), id: id.to_string(), data: data.to_vec() }
}

#[test]
fn memory_store_keeps_and_lists_by_catalog() {
    let mut store = MemoryStore::new();
    let saved = StoreResult::Success { response: StoreResponse::Saved };
    assert_eq!(store.respond(&save("credential", "a", b"1")), saved);
    assert_eq!(store.respond(&save("state", "a", b"2")), saved);
    assert_eq!(store.respond(&save("credential", "b", b"3")), saved);
    assert_eq!(
        store.respond(&store::list("credential")),
        StoreResult::Success {
            response: StoreResponse::List {
                entries: vec![
                    StoreEntry::Present(b"1".to_vec()),
                    StoreEntry::Present(b"3".to_vec())
                ]
            }
        }
    );
    assert_eq!(
        store.respond(&store::list("empty")),
        StoreResult::Success { response: StoreResponse::List { entries: vec![] } }
    );
}

#[test]
fn memory_store_overwrites_what_is_under_an_id() {
    let mut store = MemoryStore::new();
    store.respond(&save("credential", "a", b"old"));
    store.respond(&save("credential", "b", b"other"));
    store.respond(&save("credential", "a", b"new"));
    assert_eq!(store.records.len(), 2);
    assert_eq!(
        store.respond(&store::list("credential")).unwrap_list(),
        Ok(vec![StoreEntry::Present(b"new".to_vec()), StoreEntry::Present(b"other".to_vec())])
    );
}

#[test]
fn memory_store_deletes_what_is_there_and_fails_for_what_is_not() {
    let mut store = MemoryStore::new();
    store.respond(&save("credential", "a", b"1"));
    store.respond(&save("credential", "b", b"2"));
    assert_eq!(store.respond(&store::delete("credential", "a")).unwrap_delete(), Ok(()));
    assert_eq!(
        store.respond(&store::list("credential")).unwrap_list(),
        Ok(vec![StoreEntry::Present(b"2".to_vec())])
    );
    assert_eq!(
        store.respond(&store::delete("credential", "a")).unwrap_delete(),
        Err(StoreError::InvalidRequest { message: "no entry under the id".to_string() })
    );
    assert_eq!(
        store.respond(&store::delete("state", "b")).unwrap_delete(),
        Err(StoreError::InvalidRequest { message: "no entry under the id".to_string() })
    );
}
