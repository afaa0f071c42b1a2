//! The store capability: serialized credentials and flow state, kept by the
//! host shell in named catalogs.

use crate::json::{printed_view, Json};
use vstd::prelude::*;
use vstd::std_specs::convert::FromSpecImpl;
use vstd::string::StringExecFns;

verus! {

/// The catalogs that the wallet knows of. A catalog keeps unrelated
/// collections apart in one store.
#[derive(Clone, Copy, Debug, PartialEq, Eq)]
pub enum Catalog {
    /// The holder's credentials.
    Credential,
}

impl Catalog {
    /// The name under which the shell keeps this catalog.
    pub open spec fn name(self) -> Seq<char> {
        match self {
            Catalog::Credential => "credential"@,
        }
    }

    /// The name under which the shell keeps this catalog.
    pub fn to_string(&self) -> (name: String)
        ensures
            name@ == self.name(),
    {
        match self {
            Catalog::Credential => String::from_str("credential"),
        }
    }
}

/// What can go wrong with a request to the store.
#[derive(Clone, Debug, PartialEq, Eq)]
pub enum StoreError {
    /// The core built a request that cannot be carried out.
    InvalidRequest { message: String },
    /// The shell answered with something that the request does not allow.
    InvalidResponse { message: String },
}

/// The mathematical value of a [`StoreError`].
pub ghost enum StoreErrorView {
    InvalidRequest { message: Seq<char> },
    InvalidResponse { message: Seq<char> },
}

impl View for StoreError {
    type V = StoreErrorView;

    open spec fn view(&self) -> StoreErrorView {
        match self {
            StoreError::InvalidRequest { message } => StoreErrorView::InvalidRequest {
                message: message@,
            },
            StoreError::InvalidResponse { message } => StoreErrorView::InvalidResponse {
                message: message@,
            },
        }
    }
}

impl StoreErrorView {
    /// The text shown for this error.
    pub open spec fn text(self) -> Seq<char> {
        match self {
            StoreErrorView::InvalidRequest { message } => "invalid store request "@ + message,
            StoreErrorView::InvalidResponse { message } => "invalid store response "@ + message,
        }
    }
}

impl StoreError {
    /// The text shown for this error.
    pub fn to_string(&self) -> (text: String)
        ensures
            text@ == self@.text(),
    {
        match self {
            StoreError::InvalidRequest { message } => String::from_str(
                "invalid store request ",
            ).concat(message.as_str()),
            StoreError::InvalidResponse { message } => String::from_str(
                "invalid store response ",
            ).concat(message.as_str()),
        }
    }

    /// A copy of this error.
    pub fn duplicate(&self) -> (copy: StoreError)
        ensures
            copy@ == self@,
    {
        match self {
            StoreError::InvalidRequest { message } => StoreError::InvalidRequest {
                message: message.clone(),
            },
            StoreError::InvalidResponse { message } => StoreError::InvalidResponse {
                message: message.clone(),
            },
        }
    }
}

/// What the store holds under an id: nothing, or serialized data.
///
/// The two cases are spelled out because the boundary to the shell carries
/// no optional values.
#[derive(Clone, Debug, PartialEq, Eq)]
pub enum StoreEntry {
    /// No entry for the id.
    Absent,
    /// A serialized credential or flow state.
    Present(Vec<u8>),
}

impl View for StoreEntry {
    type V = Option<Seq<u8>>;

    open spec fn view(&self) -> Option<Seq<u8>> {
        match self {
            StoreEntry::Absent => None,
            StoreEntry::Present(bytes) => Some(bytes@),
        }
    }
}

impl From<Vec<u8>> for StoreEntry {
    fn from(bytes: Vec<u8>) -> (entry: StoreEntry) {
        StoreEntry::Present(bytes)
    }
}

impl FromSpecImpl<Vec<u8>> for StoreEntry {
    open spec fn obeys_from_spec() -> bool {
        true
    }

    open spec fn from_spec(bytes: Vec<u8>) -> StoreEntry {
        StoreEntry::Present(bytes)
    }
}

impl From<StoreEntry> for Option<Vec<u8>> {
    fn from(entry: StoreEntry) -> (bytes: Option<Vec<u8>>) {
        match entry {
            StoreEntry::Absent => None,
            StoreEntry::Present(bytes) => Some(bytes),
        }
    }
}

impl FromSpecImpl<StoreEntry> for Option<Vec<u8>> {
    open spec fn obeys_from_spec() -> bool {
        true
    }

    open spec fn from_spec(entry: StoreEntry) -> Option<Vec<u8>> {
        match entry {
            StoreEntry::Absent => None,
            StoreEntry::Present(bytes) => Some(bytes),
        }
    }
}

impl From<Option<Vec<u8>>> for StoreEntry {
    fn from(val: Option<Vec<u8>>) -> (entry: StoreEntry) {
        match val {
            None => StoreEntry::Absent,
            Some(bytes) => StoreEntry::Present(bytes),
        }
    }
}

impl FromSpecImpl<Option<Vec<u8>>> for StoreEntry {
    open spec fn obeys_from_spec() -> bool {
        true
    }

    open spec fn from_spec(val: Option<Vec<u8>>) -> StoreEntry {
        match val {
            None => StoreEntry::Absent,
            Some(bytes) => StoreEntry::Present(bytes),
        }
    }
}

/// The values of a list of entries, entry by entry.
pub open spec fn entries_view(entries: Seq<StoreEntry>) -> Seq<Option<Seq<u8>>> {
    Seq::new(entries.len(), |i: int| entries[i]@)
}

/// A request to the store.
#[derive(Clone, Debug, PartialEq, Eq)]
pub enum StoreOperation {
    /// Keep `data` under `id`: a new entry, or the replacement of the one
    /// that is there.
    Save { catalog: String, id: String, data: Vec<u8> },
    /// Hand out every entry of the catalog.
    List { catalog: String },
    /// Remove the entry under `id`.
    Delete { catalog: String, id: String },
}

/// The mathematical value of a [`StoreOperation`].
pub ghost enum StoreOperationView {
    Save { catalog: Seq<char>, id: Seq<char>, data: Seq<u8> },
    List { catalog: Seq<char> },
    Delete { catalog: Seq<char>, id: Seq<char> },
}

impl View for StoreOperation {
    type V = StoreOperationView;

    open spec fn view(&self) -> StoreOperationView {
        match self {
            StoreOperation::Save { catalog, id, data } => StoreOperationView::Save {
                catalog: catalog@,
                id: id@,
                data: data@,
            },
            StoreOperation::List { catalog } => StoreOperationView::List { catalog: catalog@ },
            StoreOperation::Delete { catalog, id } => StoreOperationView::Delete {
                catalog: catalog@,
                id: id@,
            },
        }
    }
}

impl StoreOperation {
    /// A copy of this request.
    pub fn duplicate(&self) -> (copy: StoreOperation)
        ensures
            copy@ == self@,
    {
        match self {
            StoreOperation::Save { catalog, id, data } => {
                let bytes = data.clone();
                assert(bytes@ =~= data@);
                StoreOperation::Save { catalog: catalog.clone(), id: id.clone(), data: bytes }
            },
            StoreOperation::List { catalog } => StoreOperation::List { catalog: catalog.clone() },
            StoreOperation::Delete { catalog, id } => StoreOperation::Delete {
                catalog: catalog.clone(),
                id: id.clone(),
            },
        }
    }
}

/// What the store answers when a request has been carried out.
#[derive(Clone, Debug, PartialEq, Eq)]
pub enum StoreResponse {
    /// The answer to `Save`.
    Saved,
    /// The answer to `List`.
    List { entries: Vec<StoreEntry> },
    /// The answer to `Delete`.
    Deleted,
}

/// The mathematical value of a [`StoreResponse`].
pub ghost enum StoreResponseView {
    Saved,
    List { entries: Seq<Option<Seq<u8>>> },
    Deleted,
}

impl View for StoreResponse {
    type V = StoreResponseView;

    open spec fn view(&self) -> StoreResponseView {
        match self {
            StoreResponse::Saved => StoreResponseView::Saved,
            StoreResponse::List { entries } => StoreResponseView::List {
                entries: entries_view(entries@),
            },
            StoreResponse::Deleted => StoreResponseView::Deleted,
        }
    }
}

/// The outcome of a request to the store.
///
/// `Result` is not used because the boundary to the shell carries no
/// generic types.
#[derive(Clone, Debug, PartialEq, Eq)]
pub enum StoreResult {
    /// The request was carried out.
    Success { response: StoreResponse },
    /// The request failed.
    Failure { error: StoreError },
}

/// The mathematical value of a [`StoreResult`].
pub ghost enum StoreResultView {
    Success { response: StoreResponseView },
    Failure { error: StoreErrorView },
}

impl View for StoreResult {
    type V = StoreResultView;

    open spec fn view(&self) -> StoreResultView {
        match self {
            StoreResult::Success { response } => StoreResultView::Success { response: response@ },
            StoreResult::Failure { error } => StoreResultView::Failure { error: error@ },
        }
    }
}

/// The error for an answer that does not belong to the request named.
pub open spec fn unexpected_response(operation: Seq<char>) -> StoreErrorView {
    StoreErrorView::InvalidResponse {
        message: "unexpected response for "@ + operation + " operation"@,
    }
}

/// Builds the error for an answer that does not belong to the request named.
fn unexpected(operation: &str) -> (error: StoreError)
    ensures
        error@ == unexpected_response(operation@),
{
    StoreError::InvalidResponse {
        message: String::from_str("unexpected response for ").concat(operation).concat(
            " operation",
        ),
    }
}

impl StoreResultView {
    /// What the outcome of a `Save` request means to its caller.
    pub open spec fn unwrap_save(self) -> Result<(), StoreErrorView> {
        match self {
            StoreResultView::Success { response: StoreResponseView::Saved } => Ok(()),
            StoreResultView::Success { .. } => Err(unexpected_response("Save"@)),
            StoreResultView::Failure { error } => Err(error),
        }
    }

    /// What the outcome of a `List` request means to its caller.
    pub open spec fn unwrap_list(self) -> Result<Seq<Option<Seq<u8>>>, StoreErrorView> {
        match self {
            StoreResultView::Success { response: StoreResponseView::List { entries } } => Ok(entries),
            StoreResultView::Success { .. } => Err(unexpected_response("List"@)),
            StoreResultView::Failure { error } => Err(error),
        }
    }

    /// What the outcome of a `Delete` request means to its caller.
    pub open spec fn unwrap_delete(self) -> Result<(), StoreErrorView> {
        match self {
            StoreResultView::Success { response: StoreResponseView::Deleted } => Ok(()),
            StoreResultView::Success { .. } => Err(unexpected_response("Delete"@)),
            StoreResultView::Failure { error } => Err(error),
        }
    }
}

/// The value of an outcome whose success carries nothing.
pub open spec fn unit_result_view(result: Result<(), StoreError>) -> Result<(), StoreErrorView> {
    match result {
        Ok(()) => Ok(()),
        Err(error) => Err(error@),
    }
}

/// The value of the outcome of a `List` request.
pub open spec fn list_result_view(result: Result<Vec<StoreEntry>, StoreError>) -> Result<
    Seq<Option<Seq<u8>>>,
    StoreErrorView,
> {
    match result {
        Ok(entries) => Ok(entries_view(entries@)),
        Err(error) => Err(error@),
    }
}

impl StoreResult {
    /// Reads the outcome of a `Save` request: success, the store's error,
    /// or `InvalidResponse` where the shell answered another request.
    pub fn unwrap_save(self) -> (result: Result<(), StoreError>)
        ensures
            unit_result_view(result) == self@.unwrap_save(),
    {
        match self {
            StoreResult::Success { response } => match response {
                StoreResponse::Saved => Ok(()),
                _ => Err(unexpected("Save")),
            },
            StoreResult::Failure { error } => Err(error),
        }
    }

    /// Reads the outcome of a `List` request: the entries, the store's
    /// error, or `InvalidResponse` where the shell answered another request.
    pub fn unwrap_list(self) -> (result: Result<Vec<StoreEntry>, StoreError>)
        ensures
            list_result_view(result) == self@.unwrap_list(),
    {
        match self {
            StoreResult::Success { response } => match response {
                StoreResponse::List { entries } => Ok(entries),
                _ => Err(unexpected("List")),
            },
            StoreResult::Failure { error } => Err(error),
        }
    }

    /// Reads the outcome of a `Delete` request: success, the store's error,
    /// or `InvalidResponse` where the shell answered another request.
    pub fn unwrap_delete(self) -> (result: Result<(), StoreError>)
        ensures
            unit_result_view(result) == self@.unwrap_delete(),
    {
        match self {
            StoreResult::Success { response } => match response {
                StoreResponse::Deleted => Ok(()),
                _ => Err(unexpected("Delete")),
            },
            StoreResult::Failure { error } => Err(error),
        }
    }
}

/// The request that a `Save` becomes once the data has been printed: the
/// request with the printed bytes, or `InvalidRequest` with the printer's
/// message.
pub open spec fn save_request(
    catalog: Seq<char>,
    id: Seq<char>,
    printed: Result<Seq<u8>, Seq<char>>,
) -> Result<StoreOperationView, StoreErrorView> {
    match printed {
        Ok(data) => Ok(StoreOperationView::Save { catalog, id, data }),
        Err(message) => Err(
            StoreErrorView::InvalidRequest { message: "failed to serialize data: "@ + message },
        ),
    }
}

/// The value of a request or the error in its place.
pub open spec fn request_view(request: Result<StoreOperation, StoreError>) -> Result<
    StoreOperationView,
    StoreErrorView,
> {
    match request {
        Ok(operation) => Ok(operation@),
        Err(error) => Err(error@),
    }
}

/// The request to keep data, from what the printer made of it.
pub fn save_printed(catalog: &str, id: &str, printed: Result<Vec<u8>, String>) -> (request: Result<
    StoreOperation,
    StoreError,
>)
    ensures
        request_view(request) == save_request(catalog@, id@, printed_view(printed)),
{
    match printed {
        Ok(data) => Ok(
            StoreOperation::Save {
                catalog: String::from_str(catalog),
                id: String::from_str(id),
                data,
            },
        ),
        Err(message) => Err(
            StoreError::InvalidRequest {
                message: String::from_str("failed to serialize data: ").concat(message.as_str()),
            },
        ),
    }
}

/// The request to keep `data`, printed as JSON, under `id` in `catalog`.
pub fn save(catalog: &str, id: &str, data: &Json) -> (request: Result<StoreOperation, StoreError>)
    ensures
        request_view(request) == save_request(catalog@, id@, Ok(data@.printed())),
{
    save_printed(catalog, id, data.print())
}

/// The request for every entry of `catalog`.
pub fn list(catalog: &str) -> (operation: StoreOperation)
    ensures
        operation@ == (StoreOperationView::List { catalog: catalog@ }),
{
    StoreOperation::List { catalog: String::from_str(catalog) }
}

/// The request to remove the entry under `id` from `catalog`.
pub fn delete(catalog: &str, id: &str) -> (operation: StoreOperation)
    ensures
        operation@ == (StoreOperationView::Delete { catalog: catalog@, id: id@ }),
{
    StoreOperation::Delete { catalog: String::from_str(catalog), id: String::from_str(id) }
}

} // verus!
