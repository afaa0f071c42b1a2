//! The state of the wallet.

pub mod credential;
pub mod issuance;

use crate::app::Aspect;
use crate::capabilities::store::{
    entries_view, save_printed, save_request, Catalog, StoreEntry, StoreOperation,
    StoreOperationView,
};
use crate::holder::credential::{Credential, CredentialView};
use crate::holder::metadata::{
    IssuedCredential, IssuedCredentialView, Issuer, IssuerView, TokenResponse, TokenResponseView,
};
use crate::holder::request::{
    CredentialRequest, CredentialRequestView, ProofRequest, ProofRequestView, TokenRequest,
    TokenRequestView,
};
use crate::holder::offer::{
    decoded_view, offer_decoded, CredentialOffer, CredentialOfferView, DecodeError,
    DecodeErrorView, TxCodeView,
};
use crate::json::{optional_string_view, printed_view};
use crate::model::credential::{credentials_of, CredentialState, CredentialStateView};
use crate::model::issuance::{
    credential_requests_view, image_requests_view, Change, ChangeView, ImageRequest,
    ImageRequestView, IssuanceState, IssuanceStateView,
};
use vstd::prelude::*;
use vstd::string::StringExecFns;

verus! {

/// The state of the wallet. Nothing but the handling of an event changes
/// it.
#[derive(Clone, Debug, Default, PartialEq, Eq)]
pub struct Model {
    /// The part of the application that is shown.
    pub active_view: Aspect,
    /// The credentials that the wallet holds.
    pub credential: CredentialState,
    /// The issuance that is in progress, if any.
    pub issuance: Option<IssuanceState>,
    /// The last error, if any.
    pub error: Option<String>,
}

/// The mathematical value of a [`Model`].
pub ghost struct ModelView {
    pub active_view: Aspect,
    pub credential: CredentialStateView,
    pub issuance: Option<IssuanceStateView>,
    pub error: Option<Seq<char>>,
}

/// The value of an optional issuance.
pub open spec fn optional_issuance_view(issuance: Option<IssuanceState>) -> Option<
    IssuanceStateView,
> {
    match issuance {
        Some(state) => Some(state@),
        None => None,
    }
}

impl View for Model {
    type V = ModelView;

    open spec fn view(&self) -> ModelView {
        ModelView {
            active_view: self.active_view,
            credential: self.credential@,
            issuance: optional_issuance_view(self.issuance),
            error: optional_string_view(self.error),
        }
    }
}

/// The text shown where an entry of the store is no credential.
pub open spec fn unreadable_credential_text() -> Seq<char> {
    "stored credential cannot be read"@
}

impl ModelView {
    /// The model of a wallet that has just started.
    pub open spec fn init() -> ModelView {
        ModelView {
            active_view: Aspect::CredentialList,
            credential: CredentialStateView::init(),
            issuance: None,
            error: None,
        }
    }

    /// Whether the issuance that is in progress, if any, is well formed.
    pub open spec fn wf(self) -> bool {
        match self.issuance {
            Some(state) => state.wf(),
            None => true,
        }
    }

    /// Whether no issuance is in progress.
    pub open spec fn inactive(self) -> bool {
        match self.issuance {
            Some(state) => state is Inactive,
            None => true,
        }
    }

    /// The PIN that the issuer asks for, while the issuance can take one
    /// in: in `IssuerMetadata` and in `Accepted`, where the grant asks for
    /// one.
    pub open spec fn pin_asked(self) -> Option<TxCodeView> {
        match self.issuance {
            Some(IssuanceStateView::IssuerMetadata { flow, .. }) => flow.grant.tx_code,
            Some(IssuanceStateView::Accepted { flow, .. }) => flow.grant.tx_code,
            _ => None,
        }
    }

    /// The PIN that the holder has entered.
    pub open spec fn pin_held(self) -> Option<Seq<char>> {
        match self.issuance {
            Some(state) => match state.flow() {
                Some(flow) => flow.pin,
                None => None,
            },
            None => None,
        }
    }

    /// The model once an error has occurred: the error is shown.
    pub open spec fn with_error(self, error: Seq<char>) -> ModelView {
        ModelView { active_view: Aspect::Error, error: Some(error), ..self }
    }

    /// The model once the shell is ready: the list of credentials is shown,
    /// empty until the store has listed them.
    pub open spec fn on_ready(self) -> ModelView {
        ModelView {
            active_view: Aspect::CredentialList,
            credential: CredentialStateView::init(),
            ..self
        }
    }

    /// The model once the holder has selected a credential: its detail is
    /// shown.
    pub open spec fn on_select(self, id: Seq<char>) -> ModelView {
        ModelView {
            active_view: Aspect::CredentialDetail,
            credential: CredentialStateView { id: Some(id), ..self.credential },
            ..self
        }
    }

    /// The model once the store has listed the credentials: the list is
    /// shown. Where an entry is no credential the error is shown in its
    /// place.
    pub open spec fn on_loaded(self, entries: Seq<Option<Seq<u8>>>) -> ModelView {
        match credentials_of(entries, entries.len() as int) {
            Some(credentials) => ModelView {
                active_view: Aspect::CredentialList,
                credential: CredentialStateView { credentials, ..self.credential },
                ..self
            },
            None => self.with_error(unreadable_credential_text()),
        }
    }

    /// The model once a credential has been deleted: none is selected.
    pub open spec fn on_deleted(self) -> ModelView {
        ModelView { credential: CredentialStateView { id: None, ..self.credential }, ..self }
    }

    /// The model once the holder wants to scan an offer: the scanner is
    /// shown, and an issuance that was in progress is dropped.
    pub open spec fn on_scan(self) -> ModelView {
        ModelView { active_view: Aspect::IssuanceScan, issuance: None, ..self }
    }

    /// The model once an offer has been scanned, from what reading it
    /// gave: the issuance that the offer starts, or the error.
    pub open spec fn on_offer(self, decoded: Result<CredentialOfferView, DecodeErrorView>) -> ModelView {
        match IssuanceStateView::from_decoded(decoded) {
            Ok(state) => ModelView { issuance: Some(state), ..self },
            Err(error) => self.with_error(error.text()),
        }
    }

    /// The identifier under which state of the issuance in progress is
    /// persisted.
    pub open spec fn issuance_id(self) -> Option<Seq<char>> {
        match self.issuance {
            Some(state) => state.issuance_id(),
            None => None,
        }
    }

    /// The model once the holder has given the issuance up: the list of
    /// credentials is shown and no issuance is in progress.
    pub open spec fn on_cancel(self) -> ModelView {
        ModelView { active_view: Aspect::CredentialList, issuance: None, ..self }
    }
}

impl Model {
    /// The model of a wallet that has just started.
    pub fn new() -> (model: Model)
        ensures
            model@ == ModelView::init(),
    {
        Model {
            active_view: Aspect::CredentialList,
            credential: CredentialState::init(),
            issuance: None,
            error: None,
        }
    }

    /// An error has occurred: it is shown.
    pub fn error(&mut self, error: String)
        ensures
            final(self)@ == old(self)@.with_error(error@),
            old(self)@.wf() ==> final(self)@.wf(),
    {
        self.active_view = Aspect::Error;
        self.error = Some(error);
    }

    /// The shell is ready: the list of credentials is shown.
    pub fn ready(&mut self)
        ensures
            final(self)@ == old(self)@.on_ready(),
            old(self)@.wf() ==> final(self)@.wf(),
    {
        self.active_view = Aspect::CredentialList;
        self.credential = CredentialState::init();
    }

    /// The holder has selected a credential to look at.
    pub fn select_credential(&mut self, id: String)
        ensures
            final(self)@ == old(self)@.on_select(id@),
            old(self)@.wf() ==> final(self)@.wf(),
    {
        self.active_view = Aspect::CredentialDetail;
        self.credential.id = Some(id);
    }

    /// The store has listed the credentials.
    pub fn credentials_loaded(&mut self, entries: Vec<StoreEntry>)
        ensures
            final(self)@ == old(self)@.on_loaded(entries_view(entries@)),
            old(self)@.wf() ==> final(self)@.wf(),
    {
        if self.credential.set_credentials(entries) {
            self.active_view = Aspect::CredentialList;
        } else {
            self.error(String::from_str("stored credential cannot be read"));
        }
    }

    /// A credential has been deleted.
    pub fn delete_credential(&mut self)
        ensures
            final(self)@ == old(self)@.on_deleted(),
            old(self)@.wf() ==> final(self)@.wf(),
    {
        self.credential.id = None;
    }

    /// The holder wants to scan an offer.
    pub fn scan_issuance_offer(&mut self)
        ensures
            final(self)@ == old(self)@.on_scan(),
            old(self)@.wf() ==> final(self)@.wf(),
    {
        self.active_view = Aspect::IssuanceScan;
        self.issuance = None;
    }

    /// An offer has been scanned and read: the issuance that it starts is
    /// in progress, or the error is shown.
    pub fn issuance_offer_decoded(&mut self, decoded: Result<CredentialOffer, DecodeError>)
        ensures
            final(self)@ == old(self)@.on_offer(decoded_view(decoded)),
            old(self)@.wf() ==> final(self)@.wf(),
    {
        match IssuanceState::from_decoded(decoded) {
            Ok(state) => {
                self.issuance = Some(state);
            },
            Err(error) => {
                self.error(error.to_string());
            },
        }
    }

    /// An offer has been scanned: it is read, and the issuance that it
    /// starts is in progress. An offer that cannot be read, or that has no
    /// pre-authorized code grant, is shown as an error.
    pub fn issuance_offer(&mut self, encoded_offer: &str)
        ensures
            final(self)@ == old(self)@.on_offer(offer_decoded(encoded_offer@)),
            old(self)@.wf() ==> final(self)@.wf(),
    {
        self.issuance_offer_decoded(CredentialOffer::decode(encoded_offer));
    }

    /// The identifier under which state of the issuance in progress is
    /// persisted.
    pub fn issuance_id(&self) -> (id: Option<String>)
        ensures
            optional_string_view(id) == self@.issuance_id(),
    {
        match &self.issuance {
            Some(state) => state.issuance_id(),
            None => None,
        }
    }

    /// The holder has given the issuance up: the list of credentials is
    /// shown and no issuance is in progress. The identifier that comes
    /// back is the one under which state of the flow was persisted: what
    /// is kept under it is to be purged.
    pub fn cancel_issuance(&mut self) -> (purge: Option<String>)
        ensures
            final(self)@ == old(self)@.on_cancel(),
            optional_string_view(purge) == old(self)@.issuance_id(),
            final(self)@.wf(),
    {
        self.active_view = Aspect::CredentialList;
        let purge = match &mut self.issuance {
            Some(issuance) => issuance.cancel(),
            None => None,
        };
        self.issuance = None;
        purge
    }
}

impl ModelView {
    /// The model once the issuer's metadata has come in. An issuance that
    /// waits for it moves on and the offer is shown; where the issuer
    /// lacks a configuration the error is shown. Otherwise the metadata is
    /// stale and nothing changes.
    pub open spec fn on_issuer(self, issuer: IssuerView) -> ModelView {
        match self.issuance {
            Some(state) => match state.on_issuer(issuer) {
                (next, None) => if next is IssuerMetadata && state is Offered {
                    ModelView { active_view: Aspect::IssuanceOffer, issuance: Some(next), ..self }
                } else {
                    self
                },
                (_, Some(error)) => self.with_error(error.text()),
            },
            None => self,
        }
    }

    /// The images to fetch once the issuer's metadata has come in.
    pub open spec fn issuer_requests(self, issuer: IssuerView) -> Seq<ImageRequestView> {
        match self.issuance {
            Some(state) => if state is Offered {
                state.on_issuer(issuer).0.image_requests()
            } else {
                Seq::empty()
            },
            None => Seq::empty(),
        }
    }

    /// The model once something has come in for the credential on offer
    /// under `id`.
    pub open spec fn on_change(self, id: Seq<char>, change: ChangeView) -> ModelView {
        match self.issuance {
            Some(state) => ModelView { issuance: Some(state.on_change(id, change)), ..self },
            None => self,
        }
    }

    /// The model once the holder has accepted the offer.
    pub open spec fn on_accept(self) -> ModelView {
        match self.issuance {
            Some(state) => ModelView { issuance: Some(state.on_accept()), ..self },
            None => self,
        }
    }

    /// The token request to make once the holder has accepted the offer:
    /// none while a PIN is asked for and not held.
    pub open spec fn accept_request(self) -> Option<TokenRequestView> {
        match self.issuance {
            Some(state) => state.on_accept().token_request(),
            None => None,
        }
    }

    /// The model once the holder has entered a PIN: the PIN is kept, or the
    /// error is shown and the issuance stays as it is.
    pub open spec fn on_pin(self, pin: Seq<char>) -> ModelView {
        match self.issuance {
            Some(state) => match state.on_pin(pin) {
                (next, None) => ModelView { issuance: Some(next), ..self },
                (_, Some(error)) => self.with_error(error.text()),
            },
            None => self,
        }
    }

    /// The model once an access token has come in.
    pub open spec fn on_token(self, token: TokenResponseView) -> ModelView {
        match self.issuance {
            Some(state) => ModelView { issuance: Some(state.on_token(token)), ..self },
            None => self,
        }
    }

    /// The request for a proof of possession to make once an access token
    /// has come in: none where the token is stale.
    pub open spec fn token_request(self, token: TokenResponseView) -> Option<ProofRequestView> {
        match self.issuance {
            Some(state) => if state is Accepted {
                state.on_token(token).proof_request()
            } else {
                None
            },
            None => None,
        }
    }

    /// The model once the proof of possession has come in.
    pub open spec fn on_proof(self, jwt: Seq<char>) -> ModelView {
        match self.issuance {
            Some(state) => ModelView { issuance: Some(state.on_proof(jwt)), ..self },
            None => self,
        }
    }

    /// The credential requests to make once the proof of possession has
    /// come in: none where the proof is stale.
    pub open spec fn proof_requests(self, jwt: Seq<char>) -> Seq<(Seq<char>, CredentialRequestView)> {
        match self.issuance {
            Some(state) => if state is Token {
                state.on_proof(jwt).credential_requests()
            } else {
                Seq::empty()
            },
            None => Seq::empty(),
        }
    }

    /// The credential to keep for what the issuer handed out for the
    /// configuration `id`: none where the issuance does not wait for it.
    pub open spec fn credential(self, id: Seq<char>, issued: IssuedCredentialView) -> Option<
        CredentialView,
    > {
        match self.issuance {
            Some(state) => state.credential(id, issued),
            None => None,
        }
    }

    /// The model once a credential has come in and has been printed: the
    /// credential counts as received, or, where printing failed, the error
    /// is shown. Where the issuance does not wait for the credential
    /// nothing changes.
    pub open spec fn on_credential(
        self,
        id: Seq<char>,
        issued: IssuedCredentialView,
        printed: Result<Seq<u8>, Seq<char>>,
    ) -> ModelView {
        match self.credential(id, issued) {
            Some(credential) => match save_request(Catalog::Credential.name(), credential.id, printed) {
                Ok(_) => self.on_change(id, ChangeView::Received),
                Err(error) => self.with_error(error.text()),
            },
            None => self,
        }
    }

    /// The request to the store once a credential has come in and has been
    /// printed: to keep the printed credential under its identifier.
    pub open spec fn credential_request(
        self,
        id: Seq<char>,
        issued: IssuedCredentialView,
        printed: Result<Seq<u8>, Seq<char>>,
    ) -> Option<StoreOperationView> {
        match self.credential(id, issued) {
            Some(credential) => match save_request(Catalog::Credential.name(), credential.id, printed) {
                Ok(operation) => Some(operation),
                Err(_) => None,
            },
            None => None,
        }
    }

    /// Whether the deferral of the credential for the configuration `id`
    /// ends the issuance: so it does when the issuance waits for that
    /// credential and for no other.
    pub open spec fn defers_last(self, id: Seq<char>) -> bool {
        match self.issuance {
            Some(state) => state.awaits(id) && state.on_deferred(id) is Inactive,
            None => false,
        }
    }

    /// The model once the issuer has deferred the credential for the
    /// configuration `id`. When the issuance waits for no other credential
    /// it is over: none is in progress, and the list of credentials is
    /// shown.
    pub open spec fn on_deferred(self, id: Seq<char>) -> ModelView {
        match self.issuance {
            Some(state) => if self.defers_last(id) {
                ModelView { active_view: Aspect::CredentialList, issuance: None, ..self }
            } else {
                ModelView { issuance: Some(state.on_deferred(id)), ..self }
            },
            None => self,
        }
    }

    /// Whether storing the credential for the configuration `id` ends the
    /// issuance: so it does when it was the last one to be settled.
    pub open spec fn completes(self, id: Seq<char>) -> bool {
        match self.issuance {
            Some(state) => state is Proof && state.on_stored(id) is Inactive,
            None => false,
        }
    }

    /// The model once the credential for the configuration `id` has been
    /// stored. When it was the last one the issuance is over: none is in
    /// progress, and the list of credentials is shown.
    pub open spec fn on_stored(self, id: Seq<char>) -> ModelView {
        match self.issuance {
            Some(state) => if self.completes(id) {
                ModelView { active_view: Aspect::CredentialList, issuance: None, ..self }
            } else {
                ModelView { issuance: Some(state.on_stored(id)), ..self }
            },
            None => self,
        }
    }
}

impl Model {
    /// The issuer's metadata has come in. What comes back are the images
    /// to fetch.
    pub fn issuance_issuer(&mut self, issuer: &Issuer) -> (requests: Vec<ImageRequest>)
        ensures
            final(self)@ == old(self)@.on_issuer(issuer@),
            image_requests_view(requests@) == old(self)@.issuer_requests(issuer@),
            old(self)@.wf() ==> final(self)@.wf(),
    {
        match self.issuance.take() {
            Some(state) => {
                let waits = match &state {
                    IssuanceState::Offered { .. } => true,
                    _ => false,
                };
                if !waits {
                    self.issuance = Some(state);
                    let requests: Vec<ImageRequest> = Vec::new();
                    assert(image_requests_view(requests@) =~= Seq::empty());
                    return requests;
                }
                let (next, error) = state.issuer(issuer);
                let requests = next.image_requests();
                let moved = match &next {
                    IssuanceState::IssuerMetadata { .. } => true,
                    _ => false,
                };
                self.issuance = Some(next);
                match error {
                    Some(error) => {
                        self.error(error.to_string());
                    },
                    None => {
                        if moved {
                            self.active_view = Aspect::IssuanceOffer;
                        }
                    },
                }
                requests
            },
            None => {
                let requests: Vec<ImageRequest> = Vec::new();
                assert(image_requests_view(requests@) =~= Seq::empty());
                requests
            },
        }
    }

    /// Something has come in for the credential on offer under `id`.
    pub fn issuance_change(&mut self, id: &str, change: &Change)
        ensures
            final(self)@ == old(self)@.on_change(id@, change@),
            old(self)@.wf() ==> final(self)@.wf(),
    {
        match &mut self.issuance {
            Some(state) => state.change(id, change),
            None => {},
        }
    }

    /// The holder has accepted the offer. What comes back is the token
    /// request to make, if nothing is missing for it.
    pub fn issuance_accepted(&mut self) -> (request: Option<TokenRequest>)
        ensures
            final(self)@ == old(self)@.on_accept(),
            request.is_some() == old(self)@.accept_request().is_some(),
            request matches Some(r) ==> old(self)@.accept_request() == Some(r@),
            old(self)@.wf() ==> final(self)@.wf(),
    {
        match self.issuance.take() {
            Some(state) => {
                let next = state.accept();
                let request = next.token_request();
                self.issuance = Some(next);
                request
            },
            None => None,
        }
    }

    /// The holder has entered a PIN.
    pub fn issuance_pin(&mut self, pin: &str)
        ensures
            final(self)@ == old(self)@.on_pin(pin@),
            old(self)@.wf() ==> final(self)@.wf(),
    {
        match self.issuance.take() {
            Some(state) => {
                let (next, error) = state.pin(pin);
                self.issuance = Some(next);
                match error {
                    Some(error) => {
                        self.error(error.to_string());
                    },
                    None => {},
                }
            },
            None => {},
        }
    }

    /// An access token has come in. What comes back is the request for a
    /// proof of possession to make.
    pub fn issuance_token(&mut self, token: TokenResponse) -> (request: Option<ProofRequest>)
        ensures
            final(self)@ == old(self)@.on_token(token@),
            request.is_some() == old(self)@.token_request(token@).is_some(),
            request matches Some(r) ==> old(self)@.token_request(token@) == Some(r@),
            old(self)@.wf() ==> final(self)@.wf(),
    {
        match self.issuance.take() {
            Some(state) => {
                let waits = match &state {
                    IssuanceState::Accepted { .. } => true,
                    _ => false,
                };
                let next = state.token(token);
                let request = if waits {
                    next.proof_request()
                } else {
                    None
                };
                self.issuance = Some(next);
                request
            },
            None => None,
        }
    }

    /// The proof of possession has come in. What comes back are the
    /// credential requests to make.
    pub fn issuance_proof(&mut self, jwt: String) -> (requests: Vec<(String, CredentialRequest)>)
        ensures
            final(self)@ == old(self)@.on_proof(jwt@),
            credential_requests_view(requests@) == old(self)@.proof_requests(jwt@),
            old(self)@.wf() ==> final(self)@.wf(),
    {
        match self.issuance.take() {
            Some(state) => {
                let waits = match &state {
                    IssuanceState::Token { .. } => true,
                    _ => false,
                };
                let next = state.proven(jwt);
                let requests = if waits {
                    next.credential_requests()
                } else {
                    let requests: Vec<(String, CredentialRequest)> = Vec::new();
                    assert(credential_requests_view(requests@) =~= Seq::empty());
                    requests
                };
                self.issuance = Some(next);
                requests
            },
            None => {
                let requests: Vec<(String, CredentialRequest)> = Vec::new();
                assert(credential_requests_view(requests@) =~= Seq::empty());
                requests
            },
        }
    }

    /// The credential to keep for what the issuer handed out for the
    /// configuration `id`.
    pub fn issuance_credential(&self, id: &str, issued: &IssuedCredential) -> (credential: Option<
        Credential,
    >)
        ensures
            credential.is_some() == self@.credential(id@, issued@).is_some(),
            credential matches Some(c) ==> self@.credential(id@, issued@) == Some(c@),
    {
        match &self.issuance {
            Some(state) => state.credential(id, issued),
            None => None,
        }
    }

    /// A credential has come in and has been printed. What comes back is
    /// the request to the store that keeps it.
    pub fn issuance_received(
        &mut self,
        id: &str,
        issued: &IssuedCredential,
        printed: Result<Vec<u8>, String>,
    ) -> (request: Option<StoreOperation>)
        ensures
            final(self)@ == old(self)@.on_credential(id@, issued@, printed_view(printed)),
            request.is_some() == old(self)@.credential_request(
                id@,
                issued@,
                printed_view(printed),
            ).is_some(),
            request matches Some(r) ==> old(self)@.credential_request(
                id@,
                issued@,
                printed_view(printed),
            ) == Some(r@),
            old(self)@.wf() ==> final(self)@.wf(),
    {
        match self.issuance_credential(id, issued) {
            Some(credential) => {
                let catalog = Catalog::Credential.to_string();
                match save_printed(catalog.as_str(), credential.id.as_str(), printed) {
                    Ok(operation) => {
                        self.issuance_change(id, &Change::Received);
                        Some(operation)
                    },
                    Err(error) => {
                        self.error(error.to_string());
                        None
                    },
                }
            },
            None => None,
        }
    }

    /// The issuer has deferred the credential for the configuration `id`.
    /// The result says whether that ended the issuance.
    pub fn issuance_deferred(&mut self, id: &str) -> (complete: bool)
        ensures
            final(self)@ == old(self)@.on_deferred(id@),
            complete == old(self)@.defers_last(id@),
            old(self)@.wf() ==> final(self)@.wf(),
    {
        match self.issuance.take() {
            Some(state) => {
                let waits = state.awaits(id);
                let next = state.deferred(id);
                let over = match &next {
                    IssuanceState::Inactive => true,
                    _ => false,
                };
                if waits && over {
                    self.active_view = Aspect::CredentialList;
                    true
                } else {
                    self.issuance = Some(next);
                    false
                }
            },
            None => false,
        }
    }

    /// The credential for the configuration `id` has been stored. The
    /// result says whether that ended the issuance.
    pub fn issuance_stored(&mut self, id: &str) -> (complete: bool)
        ensures
            final(self)@ == old(self)@.on_stored(id@),
            complete == old(self)@.completes(id@),
            old(self)@.wf() ==> final(self)@.wf(),
    {
        match self.issuance.take() {
            Some(state) => {
                let waits = match &state {
                    IssuanceState::Proof { .. } => true,
                    _ => false,
                };
                let next = state.stored(id);
                let over = match &next {
                    IssuanceState::Inactive => true,
                    _ => false,
                };
                if waits && over {
                    self.active_view = Aspect::CredentialList;
                    true
                } else {
                    self.issuance = Some(next);
                    false
                }
            },
            None => false,
        }
    }
}

} // verus!
