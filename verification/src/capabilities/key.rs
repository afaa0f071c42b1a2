//! The key store capability: serialized private keys, kept by the host
//! shell, and fresh secrets for key derivation.

use crate::json::{printed_view, Json};
use vstd::prelude::*;
use vstd::std_specs::convert::FromSpecImpl;
use vstd::string::StringExecFns;

verus! {

/// What can go wrong with a request to the key store.
#[derive(Clone, Debug, PartialEq, Eq)]
pub enum KeyStoreError {
    /// The core built a request that cannot be carried out.
    InvalidRequest { message: String },
    /// The shell answered with something that the request does not allow.
    InvalidResponse { message: String },
}

/// The mathematical value of a [`KeyStoreError`].
pub ghost enum KeyStoreErrorView {
    InvalidRequest { message: Seq<char> },
    InvalidResponse { message: Seq<char> },
}

impl View for KeyStoreError {
    type V = KeyStoreErrorView;

    open spec fn view(&self) -> KeyStoreErrorView {
        match self {
            KeyStoreError::InvalidRequest { message } => KeyStoreErrorView::InvalidRequest {
                message: message@,
            },
            KeyStoreError::InvalidResponse { message } => KeyStoreErrorView::InvalidResponse {
                message: message@,
            },
        }
    }
}

impl KeyStoreErrorView {
    /// The text shown for this error.
    pub open spec fn text(self) -> Seq<char> {
        match self {
            KeyStoreErrorView::InvalidRequest { message } => "invalid key store request "@
                + message,
            KeyStoreErrorView::InvalidResponse { message } => "invalid key store response "@
                + message,
        }
    }
}

impl KeyStoreError {
    /// The text shown for this error.
    pub fn to_string(&self) -> (text: String)
        ensures
            text@ == self@.text(),
    {
        match self {
            KeyStoreError::InvalidRequest { message } => String::from_str(
                "invalid key store request ",
            ).concat(message.as_str()),
            KeyStoreError::InvalidResponse { message } => String::from_str(
                "invalid key store response ",
            ).concat(message.as_str()),
        }
    }
}

/// What the key store holds for an id and a purpose: nothing, or a
/// serialized private key.
#[derive(Clone, Debug, PartialEq, Eq)]
pub enum KeyStoreEntry {
    /// No entry for the id and purpose.
    Absent,
    /// A serialized private key.
    Present(Vec<u8>),
}

impl View for KeyStoreEntry {
    type V = Option<Seq<u8>>;

    open spec fn view(&self) -> Option<Seq<u8>> {
        match self {
            KeyStoreEntry::Absent => None,
            KeyStoreEntry::Present(bytes) => Some(bytes@),
        }
    }
}

impl From<Vec<u8>> for KeyStoreEntry {
    fn from(bytes: Vec<u8>) -> (entry: KeyStoreEntry) {
        KeyStoreEntry::Present(bytes)
    }
}

impl FromSpecImpl<Vec<u8>> for KeyStoreEntry {
    open spec fn obeys_from_spec() -> bool {
        true
    }

    open spec fn from_spec(bytes: Vec<u8>) -> KeyStoreEntry {
        KeyStoreEntry::Present(bytes)
    }
}

impl From<KeyStoreEntry> for Option<Vec<u8>> {
    fn from(entry: KeyStoreEntry) -> (bytes: Option<Vec<u8>>) {
        match entry {
            KeyStoreEntry::Absent => None,
            KeyStoreEntry::Present(bytes) => Some(bytes),
        }
    }
}

impl FromSpecImpl<KeyStoreEntry> for Option<Vec<u8>> {
    open spec fn obeys_from_spec() -> bool {
        true
    }

    open spec fn from_spec(entry: KeyStoreEntry) -> Option<Vec<u8>> {
        match entry {
            KeyStoreEntry::Absent => None,
            KeyStoreEntry::Present(bytes) => Some(bytes),
        }
    }
}

impl From<Option<Vec<u8>>> for KeyStoreEntry {
    fn from(val: Option<Vec<u8>>) -> (entry: KeyStoreEntry) {
        match val {
            None => KeyStoreEntry::Absent,
            Some(bytes) => KeyStoreEntry::Present(bytes),
        }
    }
}

impl FromSpecImpl<Option<Vec<u8>>> for KeyStoreEntry {
    open spec fn obeys_from_spec() -> bool {
        true
    }

    open spec fn from_spec(val: Option<Vec<u8>>) -> KeyStoreEntry {
        match val {
            None => KeyStoreEntry::Absent,
            Some(bytes) => KeyStoreEntry::Present(bytes),
        }
    }
}

/// A request to the key store.
#[derive(Clone, Debug, PartialEq, Eq)]
pub enum KeyStoreOperation {
    /// Hand out the key kept for `id` and `purpose`.
    Get { id: String, purpose: String },
    /// Keep `data` as the key for `id` and `purpose`.
    Put { id: String, purpose: String, data: Vec<u8> },
    /// Remove the key kept for `id` and `purpose`.
    Delete { id: String, purpose: String },
    /// Make a random secret of `length` bytes, fit for key derivation.
    GenerateSecret { length: usize },
}

/// The mathematical value of a [`KeyStoreOperation`].
pub ghost enum KeyStoreOperationView {
    Get { id: Seq<char>, purpose: Seq<char> },
    Put { id: Seq<char>, purpose: Seq<char>, data: Seq<u8> },
    Delete { id: Seq<char>, purpose: Seq<char> },
    GenerateSecret { length: usize },
}

impl View for KeyStoreOperation {
    type V = KeyStoreOperationView;

    open spec fn view(&self) -> KeyStoreOperationView {
        match self {
            KeyStoreOperation::Get { id, purpose } => KeyStoreOperationView::Get {
                id: id@,
                purpose: purpose@,
            },
            KeyStoreOperation::Put { id, purpose, data } => KeyStoreOperationView::Put {
                id: id@,
                purpose: purpose@,
                data: data@,
            },
            KeyStoreOperation::Delete { id, purpose } => KeyStoreOperationView::Delete {
                id: id@,
                purpose: purpose@,
            },
            KeyStoreOperation::GenerateSecret { length } => KeyStoreOperationView::GenerateSecret {
                length: *length,
            },
        }
    }
}

/// What the key store answers when a request has been carried out.
#[derive(Clone, Debug, PartialEq, Eq)]
pub enum KeyStoreResponse {
    /// The answer to `Get`.
    Retrieved { key: KeyStoreEntry },
    /// The answer to `Put`.
    Stored,
    /// The answer to `Delete`.
    Deleted,
    /// The answer to `GenerateSecret`.
    GeneratedSecret { secret: Vec<u8> },
}

/// The mathematical value of a [`KeyStoreResponse`].
pub ghost enum KeyStoreResponseView {
    Retrieved { key: Option<Seq<u8>> },
    Stored,
    Deleted,
    GeneratedSecret { secret: Seq<u8> },
}

impl View for KeyStoreResponse {
    type V = KeyStoreResponseView;

    open spec fn view(&self) -> KeyStoreResponseView {
        match self {
            KeyStoreResponse::Retrieved { key } => KeyStoreResponseView::Retrieved { key: key@ },
            KeyStoreResponse::Stored => KeyStoreResponseView::Stored,
            KeyStoreResponse::Deleted => KeyStoreResponseView::Deleted,
            KeyStoreResponse::GeneratedSecret { secret } => KeyStoreResponseView::GeneratedSecret {
                secret: secret@,
            },
        }
    }
}

/// The outcome of a request to the key store.
#[derive(Clone, Debug, PartialEq, Eq)]
pub enum KeyStoreResult {
    /// The request was carried out.
    Success { response: KeyStoreResponse },
    /// The request failed.
    Failure { error: KeyStoreError },
}

/// The mathematical value of a [`KeyStoreResult`].
pub ghost enum KeyStoreResultView {
    Success { response: KeyStoreResponseView },
    Failure { error: KeyStoreErrorView },
}

impl View for KeyStoreResult {
    type V = KeyStoreResultView;

    open spec fn view(&self) -> KeyStoreResultView {
        match self {
            KeyStoreResult::Success { response } => KeyStoreResultView::Success {
                response: response@,
            },
            KeyStoreResult::Failure { error } => KeyStoreResultView::Failure { error: error@ },
        }
    }
}

/// The error for an answer that does not belong to the request named.
pub open spec fn unexpected_response(operation: Seq<char>) -> KeyStoreErrorView {
    KeyStoreErrorView::InvalidResponse {
        message: "unexpected response for "@ + operation + " operation"@,
    }
}

/// Builds the error for an answer that does not belong to the request named.
fn unexpected(operation: &str) -> (error: KeyStoreError)
    ensures
        error@ == unexpected_response(operation@),
{
    KeyStoreError::InvalidResponse {
        message: String::from_str("unexpected response for ").concat(operation).concat(
            " operation",
        ),
    }
}

impl KeyStoreResultView {
    /// What the outcome of a `Get` request means to its caller.
    pub open spec fn unwrap_get(self) -> Result<Option<Seq<u8>>, KeyStoreErrorView> {
        match self {
            KeyStoreResultView::Success { response: KeyStoreResponseView::Retrieved { key } } => Ok(
                key,
            ),
            KeyStoreResultView::Success { .. } => Err(unexpected_response("Get"@)),
            KeyStoreResultView::Failure { error } => Err(error),
        }
    }

    /// What the outcome of a `Put` request means to its caller.
    pub open spec fn unwrap_set(self) -> Result<(), KeyStoreErrorView> {
        match self {
            KeyStoreResultView::Success { response: KeyStoreResponseView::Stored } => Ok(()),
            KeyStoreResultView::Success { .. } => Err(unexpected_response("Set"@)),
            KeyStoreResultView::Failure { error } => Err(error),
        }
    }

    /// What the outcome of a `Delete` request means to its caller.
    pub open spec fn unwrap_delete(self) -> Result<(), KeyStoreErrorView> {
        match self {
            KeyStoreResultView::Success { response: KeyStoreResponseView::Deleted } => Ok(()),
            KeyStoreResultView::Success { .. } => Err(unexpected_response("Delete"@)),
            KeyStoreResultView::Failure { error } => Err(error),
        }
    }

    /// What the outcome of a `GenerateSecret` request means to its caller.
    pub open spec fn unwrap_generate_secret(self) -> Result<Seq<u8>, KeyStoreErrorView> {
        match self {
            KeyStoreResultView::Success {
                response: KeyStoreResponseView::GeneratedSecret { secret },
            } => Ok(secret),
            KeyStoreResultView::Success { .. } => Err(unexpected_response("GenerateSecret"@)),
            KeyStoreResultView::Failure { error } => Err(error),
        }
    }
}

/// The value of an outcome whose success carries nothing.
pub open spec fn unit_result_view(result: Result<(), KeyStoreError>) -> Result<
    (),
    KeyStoreErrorView,
> {
    match result {
        Ok(()) => Ok(()),
        Err(error) => Err(error@),
    }
}

/// The value of the outcome of a `Get` request.
pub open spec fn entry_result_view(result: Result<KeyStoreEntry, KeyStoreError>) -> Result<
    Option<Seq<u8>>,
    KeyStoreErrorView,
> {
    match result {
        Ok(entry) => Ok(entry@),
        Err(error) => Err(error@),
    }
}

/// The value of the outcome of a `GenerateSecret` request.
pub open spec fn secret_result_view(result: Result<Vec<u8>, KeyStoreError>) -> Result<
    Seq<u8>,
    KeyStoreErrorView,
> {
    match result {
        Ok(secret) => Ok(secret@),
        Err(error) => Err(error@),
    }
}

impl KeyStoreResult {
    /// Reads the outcome of a `Get` request: the entry, the key store's
    /// error, or `InvalidResponse` where the shell answered another request.
    pub fn unwrap_get(self) -> (result: Result<KeyStoreEntry, KeyStoreError>)
        ensures
            entry_result_view(result) == self@.unwrap_get(),
    {
        match self {
            KeyStoreResult::Success { response: KeyStoreResponse::Retrieved { key } } => Ok(key),
            KeyStoreResult::Failure { error } => Err(error),
            _ => Err(unexpected("Get")),
        }
    }

    /// Reads the outcome of a `Put` request: success, the key store's
    /// error, or `InvalidResponse` where the shell answered another request.
    pub fn unwrap_set(self) -> (result: Result<(), KeyStoreError>)
        ensures
            unit_result_view(result) == self@.unwrap_set(),
    {
        match self {
            KeyStoreResult::Success { response: KeyStoreResponse::Stored } => Ok(()),
            KeyStoreResult::Failure { error } => Err(error),
            _ => Err(unexpected("Set")),
        }
    }

    /// Reads the outcome of a `Delete` request: success, the key store's
    /// error, or `InvalidResponse` where the shell answered another request.
    pub fn unwrap_delete(self) -> (result: Result<(), KeyStoreError>)
        ensures
            unit_result_view(result) == self@.unwrap_delete(),
    {
        match self {
            KeyStoreResult::Success { response: KeyStoreResponse::Deleted } => Ok(()),
            KeyStoreResult::Failure { error } => Err(error),
            _ => Err(unexpected("Delete")),
        }
    }

    /// Reads the outcome of a `GenerateSecret` request: the secret, the key
    /// store's error, or `InvalidResponse` where the shell answered another
    /// request.
    pub fn unwrap_generate_secret(self) -> (result: Result<Vec<u8>, KeyStoreError>)
        ensures
            secret_result_view(result) == self@.unwrap_generate_secret(),
    {
        match self {
            KeyStoreResult::Success { response: KeyStoreResponse::GeneratedSecret { secret } } => Ok(
                secret,
            ),
            KeyStoreResult::Failure { error } => Err(error),
            _ => Err(unexpected("GenerateSecret")),
        }
    }
}

/// The request that a `Put` becomes once the key has been printed: the
/// request with the printed bytes, or `InvalidRequest` with the printer's
/// message.
pub open spec fn set_request(
    id: Seq<char>,
    purpose: Seq<char>,
    printed: Result<Seq<u8>, Seq<char>>,
) -> Result<KeyStoreOperationView, KeyStoreErrorView> {
    match printed {
        Ok(data) => Ok(KeyStoreOperationView::Put { id, purpose, data }),
        Err(message) => Err(
            KeyStoreErrorView::InvalidRequest { message: "failed to serialize key: "@ + message },
        ),
    }
}

/// The value of a request or the error in its place.
pub open spec fn request_view(request: Result<KeyStoreOperation, KeyStoreError>) -> Result<
    KeyStoreOperationView,
    KeyStoreErrorView,
> {
    match request {
        Ok(operation) => Ok(operation@),
        Err(error) => Err(error@),
    }
}

/// The request for the key kept for `id` and `purpose`.
pub fn get(id: &str, purpose: &str) -> (operation: KeyStoreOperation)
    ensures
        operation@ == (KeyStoreOperationView::Get { id: id@, purpose: purpose@ }),
{
    KeyStoreOperation::Get { id: String::from_str(id), purpose: String::from_str(purpose) }
}

/// The request to keep a key, from what the printer made of it.
pub fn set_printed(id: &str, purpose: &str, printed: Result<Vec<u8>, String>) -> (request: Result<
    KeyStoreOperation,
    KeyStoreError,
>)
    ensures
        request_view(request) == set_request(id@, purpose@, printed_view(printed)),
{
    match printed {
        Ok(data) => Ok(
            KeyStoreOperation::Put {
                id: String::from_str(id),
                purpose: String::from_str(purpose),
                data,
            },
        ),
        Err(message) => Err(
            KeyStoreError::InvalidRequest {
                message: String::from_str("failed to serialize key: ").concat(message.as_str()),
            },
        ),
    }
}

/// The request to keep `data`, printed as JSON, as the key for `id` and
/// `purpose`.
pub fn set(id: &str, purpose: &str, data: &Json) -> (request: Result<
    KeyStoreOperation,
    KeyStoreError,
>)
    ensures
        request_view(request) == set_request(id@, purpose@, Ok(data@.printed())),
{
    set_printed(id, purpose, data.print())
}

/// The request to remove the key kept for `id` and `purpose`.
pub fn delete(id: &str, purpose: &str) -> (operation: KeyStoreOperation)
    ensures
        operation@ == (KeyStoreOperationView::Delete { id: id@, purpose: purpose@ }),
{
    KeyStoreOperation::Delete { id: String::from_str(id), purpose: String::from_str(purpose) }
}

/// The request for a random secret of `length` bytes.
pub fn generate_secret(length: usize) -> (operation: KeyStoreOperation)
    ensures
        operation@ == (KeyStoreOperationView::GenerateSecret { length }),
{
    KeyStoreOperation::GenerateSecret { length }
}

} // verus!
