//! What the wallet asks of the services around it, as requests that a
//! shell can carry out, and what it reads from their answers.

use crate::app::HttpError;
use crate::capabilities::store::{
    delete, entries_view, save_printed, Catalog, StoreEntry, StoreError, StoreErrorView,
    StoreOperation, StoreOperationView,
};
use crate::holder::credential::{
    credential_of_bytes, Credential, CredentialView, ImageData, ImageDataView,
};
use crate::holder::metadata::{
    IssuedCredential, IssuedCredentialView, Issuer, IssuerView, TokenResponse, TokenResponseView,
};
use crate::holder::request::{CredentialRequest, MetadataRequest, TokenRequest};
use crate::json::{
    json_parsed, json_read, optional_string_view, printed_view, Json, JsonView,
};
use crate::model::credential::{credentials_of, read_credentials};
use vstd::prelude::*;
use vstd::string::StringExecFns;

verus! {

/// How a request is made of a service.
#[derive(Clone, Copy, Debug, PartialEq, Eq, Structural)]
pub enum Method {
    Get,
    Post,
}

/// A request to a service: where it goes, what it carries, and the token
/// that authorizes it.
#[derive(Clone, Debug, PartialEq, Eq)]
pub struct HttpRequest {
    pub method: Method,
    pub url: String,
    /// The parameters that the transport writes into the query of the
    /// address, each a name with its value, in their order.
    pub query: Vec<(String, String)>,
    /// The body; empty for a request that carries nothing.
    pub body: Vec<u8>,
    /// The access token that goes with the request as its bearer.
    pub bearer: Option<String>,
}

/// The mathematical value of an [`HttpRequest`].
pub ghost struct HttpRequestView {
    pub method: Method,
    pub url: Seq<char>,
    pub query: Seq<(Seq<char>, Seq<char>)>,
    pub body: Seq<u8>,
    pub bearer: Option<Seq<char>>,
}

/// The values of a list of parameters, each a name with its value.
pub open spec fn parameters_view(parameters: Seq<(String, String)>) -> Seq<(Seq<char>, Seq<char>)> {
    Seq::new(parameters.len(), |i: int| (parameters[i].0@, parameters[i].1@))
}

impl View for HttpRequest {
    type V = HttpRequestView;

    open spec fn view(&self) -> HttpRequestView {
        HttpRequestView {
            method: self.method,
            url: self.url@,
            query: parameters_view(self.query@),
            body: self.body@,
            bearer: optional_string_view(self.bearer),
        }
    }
}

/// The address of the metadata of an issuer.
pub open spec fn metadata_url(issuer: Seq<char>) -> Seq<char> {
    issuer + "/.well-known/openid-credential-issuer"@
}

/// The address at which an issuer gives out access tokens.
pub open spec fn token_url(issuer: Seq<char>) -> Seq<char> {
    issuer + "/token"@
}

/// The address at which an issuer hands out credentials.
pub open spec fn credential_url(issuer: Seq<char>) -> Seq<char> {
    issuer + "/credential"@
}

/// A request that fetches what is at an address.
pub open spec fn get_request(url: Seq<char>) -> HttpRequestView {
    HttpRequestView {
        method: Method::Get,
        url,
        query: Seq::empty(),
        body: Seq::empty(),
        bearer: None,
    }
}

/// A request that fetches what is at an address, with parameters in the
/// query of the address.
pub open spec fn query_request(url: Seq<char>, query: Seq<(Seq<char>, Seq<char>)>) -> HttpRequestView {
    HttpRequestView { method: Method::Get, url, query, body: Seq::empty(), bearer: None }
}

/// A request that posts a printed body to an address, or, where printing
/// failed, the printer's message.
pub open spec fn post_request(
    url: Seq<char>,
    bearer: Option<Seq<char>>,
    printed: Result<Seq<u8>, Seq<char>>,
) -> Result<HttpRequestView, Seq<char>> {
    match printed {
        Ok(body) => Ok(
            HttpRequestView { method: Method::Post, url, query: Seq::empty(), body, bearer },
        ),
        Err(message) => Err(message),
    }
}

/// The value of a request or of the error in its place.
pub open spec fn request_view(request: Result<HttpRequest, HttpError>) -> Result<
    HttpRequestView,
    Seq<char>,
> {
    match request {
        Ok(r) => Ok(r@),
        Err(e) => Err(e@),
    }
}

/// A request that fetches what is at an address.
pub fn get(url: String) -> (request: HttpRequest)
    ensures
        request@ == get_request(url@),
{
    let request = HttpRequest {
        method: Method::Get,
        url,
        query: Vec::new(),
        body: Vec::new(),
        bearer: None,
    };
    assert(request@.query =~= Seq::empty());
    request
}

/// A request that posts a printed body to an address.
pub fn post(url: String, bearer: Option<String>, printed: Result<Vec<u8>, String>) -> (request:
    Result<HttpRequest, HttpError>)
    ensures
        request_view(request) == post_request(
            url@,
            optional_string_view(bearer),
            printed_view(printed),
        ),
{
    match printed {
        Ok(body) => {
            let request = HttpRequest { method: Method::Post, url, query: Vec::new(), body, bearer };
            assert(request@.query =~= Seq::empty());
            Ok(request)
        },
        Err(message) => Err(HttpError { message }),
    }
}

/// The request for an issuer's metadata.
pub fn metadata(request: &MetadataRequest) -> (http: HttpRequest)
    ensures
        http@ == get_request(metadata_url(request@.credential_issuer)),
{
    get(request.credential_issuer.clone().concat("/.well-known/openid-credential-issuer"))
}

/// The request for an access token: the token request as JSON, posted to
/// the issuer.
pub fn token(request: &TokenRequest) -> (http: Result<HttpRequest, HttpError>)
    ensures
        http matches Ok(r) && r@ == (HttpRequestView {
            method: Method::Post,
            url: token_url(request@.credential_issuer),
            query: Seq::empty(),
            body: request@.to_json().printed(),
            bearer: None,
        }),
{
    post(request.credential_issuer.clone().concat("/token"), None, request.to_json().print())
}

/// The request for a credential: the credential request as JSON, posted
/// to the issuer with the access token as bearer.
pub fn credential(request: &CredentialRequest) -> (http: Result<HttpRequest, HttpError>)
    ensures
        http matches Ok(r) && r@ == (HttpRequestView {
            method: Method::Post,
            url: credential_url(request@.credential_issuer),
            query: Seq::empty(),
            body: request@.to_json().printed(),
            bearer: Some(request@.access_token),
        }),
{
    post(
        request.credential_issuer.clone().concat("/credential"),
        Some(request.access_token.clone()),
        request.to_json().print(),
    )
}

/// The address at which an issuer hands out credentials that it has
/// deferred.
pub open spec fn deferred_url(issuer: Seq<char>) -> Seq<char> {
    issuer + "/deferred_credential"@
}

/// The address at which an issuer authorizes a holder.
pub open spec fn authorization_url(issuer: Seq<char>) -> Seq<char> {
    issuer + "/authorize"@
}

/// The request for a credential that the issuer has deferred: the request
/// as JSON, posted to the issuer with the access token as bearer.
pub fn deferred(issuer: &str, access_token: &str, request: &Json) -> (http: Result<
    HttpRequest,
    HttpError,
>)
    ensures
        http matches Ok(r) && r@ == (HttpRequestView {
            method: Method::Post,
            url: deferred_url(issuer@),
            query: Seq::empty(),
            body: request@.printed(),
            bearer: Some(access_token@),
        }),
{
    post(
        String::from_str(issuer).concat("/deferred_credential"),
        Some(String::from_str(access_token)),
        request.print(),
    )
}

/// The request for an authorization: what is asked for, as parameters in
/// the query of the issuer's address for authorizations.
pub fn authorization(issuer: &str, parameters: Vec<(String, String)>) -> (http: HttpRequest)
    ensures
        http@ == query_request(authorization_url(issuer@), parameters_view(parameters@)),
{
    HttpRequest {
        method: Method::Get,
        url: String::from_str(issuer).concat("/authorize"),
        query: parameters,
        body: Vec::new(),
        bearer: None,
    }
}

/// The request for a request object of a verifier.
pub fn request_object(url: &str) -> (http: HttpRequest)
    ensures
        http@ == get_request(url@),
{
    get(String::from_str(url))
}

/// The error for a presentation that has nowhere to go.
pub open spec fn no_presentation_uri() -> Seq<char> {
    "no presentation URI"@
}

/// The request that sends a presentation to a verifier, from what the
/// printer made of the presentation: the printed presentation posted to
/// the address, the error `no presentation URI` where there is no
/// address, and else the printer's message where printing failed.
pub open spec fn presentation_request(uri: Option<Seq<char>>, printed: Result<Seq<u8>, Seq<char>>) -> Result<
    HttpRequestView,
    Seq<char>,
> {
    match uri {
        Some(url) => post_request(url, None, printed),
        None => Err(no_presentation_uri()),
    }
}

/// The request that sends a presentation to a verifier, from what the
/// printer made of the presentation.
pub fn present_printed(uri: Option<&str>, printed: Result<Vec<u8>, String>) -> (http: Result<
    HttpRequest,
    HttpError,
>)
    ensures
        request_view(http) == presentation_request(
            match uri {
                Some(url) => Some(url@),
                None => None,
            },
            printed_view(printed),
        ),
{
    match uri {
        Some(url) => post(String::from_str(url), None, printed),
        None => Err(HttpError { message: String::from_str("no presentation URI") }),
    }
}

/// The request that sends a presentation, as JSON, to a verifier. Without
/// an address there is no request.
pub fn present(uri: Option<&str>, presentation: &Json) -> (http: Result<HttpRequest, HttpError>)
    ensures
        request_view(http) == presentation_request(
            match uri {
                Some(url) => Some(url@),
                None => None,
            },
            Ok(presentation@.printed()),
        ),
{
    present_printed(uri, presentation.print())
}

/// The request for an image.
pub fn image(url: &str) -> (http: HttpRequest)
    ensures
        http@ == get_request(url@),
{
    get(String::from_str(url))
}

/// The image that was fetched: the body of the answer, with the content
/// type that the answer names, or none.
pub fn image_fetched(data: String, content_type: Option<String>) -> (image: ImageData)
    ensures
        image@ == (ImageDataView {
            data: data@,
            media_type: match content_type {
                Some(t) => t@,
                None => Seq::empty(),
            },
        }),
{
    ImageData {
        data,
        media_type: match content_type {
            Some(t) => t,
            None => String::new(),
        },
    }
}

/// The message for an answer that could not be read: the parser's, where
/// the answer is no JSON, and else the one given.
pub open spec fn refusal(bytes: Seq<u8>, otherwise: Seq<char>) -> Seq<char> {
    match json_read(bytes) {
        Err(message) => message,
        Ok(_) => otherwise,
    }
}

/// The issuer that the bytes of a metadata document stand for.
pub open spec fn issuer_of_bytes(issuance_id: Seq<char>, bytes: Seq<u8>) -> Option<IssuerView> {
    match json_parsed(bytes) {
        Some(json) => IssuerView::from_json(issuance_id, json),
        None => None,
    }
}

/// The token response that the bytes of an answer stand for.
pub open spec fn token_of_bytes(bytes: Seq<u8>) -> Option<TokenResponseView> {
    match json_parsed(bytes) {
        Some(json) => TokenResponseView::from_json(json),
        None => None,
    }
}

/// What an issuer answers to a credential request: the credential, or the
/// transaction under which it hands the credential out later.
#[derive(Clone, Debug, PartialEq, Eq)]
pub enum CredentialAnswer {
    Issued(IssuedCredential),
    Deferred { transaction_id: String },
}

/// The mathematical value of a [`CredentialAnswer`].
pub ghost enum CredentialAnswerView {
    Issued(IssuedCredentialView),
    Deferred { transaction_id: Seq<char> },
}

impl View for CredentialAnswer {
    type V = CredentialAnswerView;

    open spec fn view(&self) -> CredentialAnswerView {
        match self {
            CredentialAnswer::Issued(issued) => CredentialAnswerView::Issued(issued@),
            CredentialAnswer::Deferred { transaction_id } => CredentialAnswerView::Deferred {
                transaction_id: transaction_id@,
            },
        }
    }
}

/// The answer that a JSON value stands for: a deferral where it names a
/// transaction under `transaction_id`, and else the credential that it
/// reads as.
pub open spec fn answer_of_json(json: JsonView) -> Option<CredentialAnswerView> {
    match json.text_field("transaction_id"@) {
        Some(transaction_id) => Some(CredentialAnswerView::Deferred { transaction_id }),
        None => match IssuedCredentialView::from_json(json) {
            Some(issued) => Some(CredentialAnswerView::Issued(issued)),
            None => None,
        },
    }
}

/// The answer that the bytes of an answer to a credential request stand
/// for.
pub open spec fn answer_of_bytes(bytes: Seq<u8>) -> Option<CredentialAnswerView> {
    match json_parsed(bytes) {
        Some(json) => answer_of_json(json),
        None => None,
    }
}

/// Reads the answer to a credential request. The error says whether the
/// answer is no JSON or neither a credential nor a deferral.
pub fn credential_response(bytes: &[u8]) -> (answer: Result<CredentialAnswer, HttpError>)
    ensures
        answer.is_ok() == answer_of_bytes(bytes@).is_some(),
        answer matches Ok(a) ==> answer_of_bytes(bytes@) == Some(a@),
        answer matches Err(e) ==> e@ == refusal(bytes@, "answer is no credential"@),
{
    let json = match Json::parse(bytes) {
        Ok(json) => json,
        Err(message) => {
            return Err(HttpError { message });
        },
    };
    match json.text_field("transaction_id") {
        Some(transaction_id) => Ok(CredentialAnswer::Deferred { transaction_id }),
        None => match IssuedCredential::from_json(&json) {
            Some(issued) => Ok(CredentialAnswer::Issued(issued)),
            None => Err(HttpError { message: String::from_str("answer is no credential") }),
        },
    }
}

/// Reads the answer to a metadata request. The error says whether the
/// answer is no JSON or no metadata.
pub fn metadata_response(issuance_id: &str, bytes: &[u8]) -> (issuer: Result<Issuer, HttpError>)
    ensures
        issuer.is_ok() == issuer_of_bytes(issuance_id@, bytes@).is_some(),
        issuer matches Ok(i) ==> issuer_of_bytes(issuance_id@, bytes@) == Some(i@),
        issuer matches Err(e) ==> e@ == refusal(bytes@, "answer is no issuer metadata"@),
{
    match Json::parse(bytes) {
        Ok(json) => match Issuer::from_json(issuance_id, &json) {
            Some(issuer) => Ok(issuer),
            None => Err(HttpError { message: String::from_str("answer is no issuer metadata") }),
        },
        Err(message) => Err(HttpError { message }),
    }
}

/// Reads the answer to a token request. The error says whether the answer
/// is no JSON or no token response.
pub fn token_response(bytes: &[u8]) -> (token: Result<TokenResponse, HttpError>)
    ensures
        token.is_ok() == token_of_bytes(bytes@).is_some(),
        token matches Ok(t) ==> token_of_bytes(bytes@) == Some(t@),
        token matches Err(e) ==> e@ == refusal(bytes@, "answer is no token response"@),
{
    match Json::parse(bytes) {
        Ok(json) => match TokenResponse::from_json(&json) {
            Some(token) => Ok(token),
            None => Err(HttpError { message: String::from_str("answer is no token response") }),
        },
        Err(message) => Err(HttpError { message }),
    }
}

/// The request to the store that keeps a credential: its JSON text under
/// its identifier in the catalog of credentials. A credential that is
/// there under the identifier is replaced.
pub fn save(credential: &Credential) -> (request: Result<StoreOperation, StoreError>)
    ensures
        request matches Ok(operation) && operation@ == (StoreOperationView::Save {
            catalog: Catalog::Credential.name(),
            id: credential@.id,
            data: credential@.bytes(),
        }),
{
    let catalog = Catalog::Credential.to_string();
    save_printed(catalog.as_str(), credential.id.as_str(), credential.encode())
}

/// The request to the store that removes the credential under `id`.
pub fn remove(id: &str) -> (operation: StoreOperation)
    ensures
        operation@ == (StoreOperationView::Delete { catalog: Catalog::Credential.name(), id: id@ }),
{
    let catalog = Catalog::Credential.to_string();
    delete(catalog.as_str(), id)
}

/// The credential with the identifier `id` among what the store listed:
/// the first entry that holds a credential with the identifier. The
/// entries are read in their order up to that one; where one of them holds
/// data that is no credential, that is an error. Where none holds the
/// credential there is none.
pub open spec fn loaded(entries: Seq<Option<Seq<u8>>>, id: Seq<char>) -> Result<
    Option<CredentialView>,
    (),
>
    decreases entries.len(),
{
    if entries.len() == 0 {
        Ok(None)
    } else {
        match entries[0] {
            None => loaded(entries.skip(1), id),
            Some(bytes) => match credential_of_bytes(bytes) {
                None => Err(()),
                Some(credential) => if credential.id == id {
                    Ok(Some(credential))
                } else {
                    loaded(entries.skip(1), id)
                },
            },
        }
    }
}

/// The value of what was found among the entries of the store.
pub open spec fn loaded_view(loaded: Result<Option<Credential>, StoreError>) -> Result<
    Option<CredentialView>,
    (),
> {
    match loaded {
        Ok(credential) => Ok(Credential::optional_view(credential)),
        Err(_) => Err(()),
    }
}

/// The error for an entry of the store that is no credential.
pub open spec fn unreadable_entry() -> StoreErrorView {
    StoreErrorView::InvalidResponse { message: "stored credential cannot be read"@ }
}

/// Builds the error for an entry of the store that is no credential.
fn unreadable() -> (error: StoreError)
    ensures
        error@ == unreadable_entry(),
{
    StoreError::InvalidResponse { message: String::from_str("stored credential cannot be read") }
}

/// The credentials that the entries of the store hold, in their order. An
/// entry that is no credential is an `InvalidResponse`.
pub fn all(entries: &Vec<StoreEntry>) -> (credentials: Result<Vec<Credential>, StoreError>)
    ensures
        credentials.is_ok() == credentials_of(
            entries_view(entries@),
            entries.len() as int,
        ).is_some(),
        credentials matches Ok(list) ==> credentials_of(
            entries_view(entries@),
            entries.len() as int,
        ) == Some(Credential::list_view(list@)),
        credentials matches Err(error) ==> error@ == unreadable_entry(),
{
    let (credentials, complete) = read_credentials(entries);
    if complete {
        Ok(credentials)
    } else {
        Err(unreadable())
    }
}

/// The value of what a filter said of a credential.
pub open spec fn outcome_view(outcome: Result<bool, String>) -> Result<bool, Seq<char>> {
    match outcome {
        Ok(satisfied) => Ok(satisfied),
        Err(message) => Err(message@),
    }
}

/// The values of what a filter said of a list of credentials, one by one.
pub open spec fn outcomes_view(outcomes: Seq<Result<bool, String>>) -> Seq<
    Result<bool, Seq<char>>,
> {
    Seq::new(outcomes.len(), |i: int| outcome_view(outcomes[i]))
}

/// Those of the first `n` credentials that the filter is satisfied with,
/// in their order, given what the filter said of each. Where the filter
/// failed on one of them, the first failure stands in place of the
/// selection.
pub open spec fn selected(
    credentials: Seq<CredentialView>,
    outcomes: Seq<Result<bool, Seq<char>>>,
    n: int,
) -> Result<Seq<CredentialView>, Seq<char>>
    decreases n,
{
    if n <= 0 {
        Ok(Seq::empty())
    } else {
        match selected(credentials, outcomes, n - 1) {
            Err(message) => Err(message),
            Ok(front) => match outcomes[n - 1] {
                Ok(true) => Ok(front.push(credentials[n - 1])),
                Ok(false) => Ok(front),
                Err(message) => Err(message),
            },
        }
    }
}

/// Once the filter has failed, the failure stands for every longer front
/// of the credentials.
pub proof fn lemma_selected_failed(
    credentials: Seq<CredentialView>,
    outcomes: Seq<Result<bool, Seq<char>>>,
    n: int,
    m: int,
)
    requires
        0 < n <= m,
        selected(credentials, outcomes, n) is Err,
    ensures
        selected(credentials, outcomes, m) == selected(credentials, outcomes, n),
    decreases m - n,
{
    if n < m {
        lemma_selected_failed(credentials, outcomes, n, m - 1);
    }
}

/// The value of a selection or of the failure in its place.
pub open spec fn selection_view(selection: Result<Vec<Credential>, String>) -> Result<
    Seq<CredentialView>,
    Seq<char>,
> {
    match selection {
        Ok(credentials) => Ok(Credential::list_view(credentials@)),
        Err(message) => Err(message@),
    }
}

/// The number of credentials of which the filter has said something.
pub open spec fn judged(credentials: int, outcomes: int) -> int {
    if credentials <= outcomes {
        credentials
    } else {
        outcomes
    }
}

/// Finds the credentials that a filter is satisfied with, given what the
/// filter said of each of them: `outcomes` holds, for each credential in
/// its place, whether it satisfies the filter, or why the filter failed.
/// A credential of which the filter said nothing is not selected.
pub fn select(credentials: Vec<Credential>, outcomes: Vec<Result<bool, String>>) -> (selection:
    Result<Vec<Credential>, String>)
    ensures
        selection_view(selection) == selected(
            Credential::list_view(credentials@),
            outcomes_view(outcomes@),
            judged(credentials.len() as int, outcomes.len() as int),
        ),
{
    let ghost all = Credential::list_view(credentials@);
    let ghost said = outcomes_view(outcomes@);
    let n = if credentials.len() <= outcomes.len() {
        credentials.len()
    } else {
        outcomes.len()
    };
    let mut kept: Vec<Credential> = Vec::new();
    let mut i: usize = 0;
    assert(Credential::list_view(kept@) =~= Seq::empty());
    while i < n
        invariant
            i <= n,
            n <= credentials.len(),
            n <= outcomes.len(),
            n == judged(credentials.len() as int, outcomes.len() as int),
            all == Credential::list_view(credentials@),
            said == outcomes_view(outcomes@),
            selected(all, said, i as int) == Ok::<_, Seq<char>>(Credential::list_view(kept@)),
        decreases n - i,
    {
        assert(said[i as int] == outcome_view(outcomes@[i as int]));
        match &outcomes[i] {
            Ok(true) => {
                let ghost before = Credential::list_view(kept@);
                kept.push(credentials[i].duplicate());
                assert(Credential::list_view(kept@) =~= before.push(all[i as int]));
            },
            Ok(false) => {},
            Err(message) => {
                proof {
                    assert(selected(all, said, i as int + 1) == Err::<Seq<CredentialView>, _>(
                        message@,
                    ));
                    lemma_selected_failed(all, said, i as int + 1, n as int);
                }
                return Err(message.clone());
            },
        }
        i += 1;
    }
    Ok(kept)
}

/// The text of the error for an entry of the store that is no credential.
pub open spec fn unreadable_text() -> Seq<char> {
    unreadable_entry().text()
}

/// What the search for the credentials that satisfy a filter gives, from
/// what reading the entries gave and what the filter said of each
/// credential that was read. The credentials are taken in their order: the
/// first failure of the filter stands in place of the result; where the
/// filter did not fail and an entry could not be read, that error does;
/// and else the result is the selection.
pub open spec fn found(
    credentials: Seq<CredentialView>,
    complete: bool,
    outcomes: Seq<Result<bool, Seq<char>>>,
) -> Result<Seq<CredentialView>, Seq<char>> {
    match selected(
        credentials,
        outcomes,
        judged(credentials.len() as int, outcomes.len() as int),
    ) {
        Err(message) => Err(message),
        Ok(kept) => if complete {
            Ok(kept)
        } else {
            Err(unreadable_text())
        },
    }
}

/// Finds the credentials that satisfy a filter. `credentials` and
/// `complete` are what reading the entries of the store gave, and
/// `outcomes` holds what the filter said of each credential that was read,
/// in its place.
pub fn find(credentials: Vec<Credential>, complete: bool, outcomes: Vec<Result<bool, String>>) -> (selection:
    Result<Vec<Credential>, String>)
    ensures
        selection_view(selection) == found(
            Credential::list_view(credentials@),
            complete,
            outcomes_view(outcomes@),
        ),
{
    match select(credentials, outcomes) {
        Ok(kept) => {
            if complete {
                Ok(kept)
            } else {
                Err(unreadable().to_string())
            }
        },
        Err(message) => Err(message),
    }
}

/// The credential with the identifier `id` among the entries that the
/// store listed: the first that has the identifier. An entry before it
/// that is no credential is an `InvalidResponse`.
pub fn load(entries: &Vec<StoreEntry>, id: &str) -> (found: Result<Option<Credential>, StoreError>)
    ensures
        loaded_view(found) == loaded(entries_view(entries@), id@),
        found matches Err(error) ==> error@ == unreadable_entry(),
{
    let wanted = String::from_str(id);
    let ghost all = entries_view(entries@);
    assert(all.skip(0) =~= all);
    let mut i: usize = 0;
    while i < entries.len()
        invariant
            i <= entries.len(),
            wanted@ == id@,
            all == entries_view(entries@),
            loaded(all, id@) == loaded(all.skip(i as int), id@),
        decreases entries.len() - i,
    {
        assert(all.skip(i as int)[0] == all[i as int]);
        assert(all.skip(i as int).skip(1) =~= all.skip(i as int + 1));
        match &entries[i] {
            StoreEntry::Absent => {},
            StoreEntry::Present(bytes) => match Credential::decode(bytes.as_slice()) {
                Some(credential) => {
                    if credential.id == wanted {
                        return Ok(Some(credential));
                    }
                },
                None => {
                    return Err(unreadable());
                },
            },
        }
        i += 1;
    }
    Ok(None)
}

/// What a lookup in the state store gave its caller: the data, or an
/// error where nothing is kept under the key.
pub fn state_found(data: Option<Vec<u8>>) -> (found: Result<Vec<u8>, HttpError>)
    ensures
        match data {
            Some(bytes) => found matches Ok(b) && b@ == bytes@,
            None => found matches Err(e) && e@ == "no data found"@,
        },
{
    match data {
        Some(bytes) => Ok(bytes),
        None => Err(HttpError { message: String::from_str("no data found") }),
    }
}

} // verus!
