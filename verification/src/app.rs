//! The application: the events that come in, the effects that go out, and
//! the update that turns the one into the other.

use crate::capabilities::store::{
    delete, entries_view, list, Catalog, StoreEntry, StoreError, StoreErrorView, StoreOperation,
    StoreOperationView,
};
use crate::json::printed_view;
use crate::holder::credential::{ImageData, ImageDataView};
use crate::holder::metadata::{
    IssuedCredential, IssuedCredentialView, Issuer, IssuerView, TokenResponse, TokenResponseView,
};
use crate::holder::offer::{
    decoded_view, offer_decoded, CredentialOffer, CredentialOfferView, DecodeError,
    DecodeErrorView,
};
use crate::holder::request::{
    CredentialRequest, CredentialRequestView, MetadataRequest, MetadataRequestView, ProofRequest,
    ProofRequestView, TokenRequest, TokenRequestView,
};
use crate::model::issuance::{
    credential_requests_view, image_requests_view, Change, ChangeView, ImageRequest,
    ImageRequestView,
};
use crate::model::{Model, ModelView};
use crate::view::{Shown, ViewModel};
use vstd::prelude::*;

verus! {

/// The part of the application that is shown. The shell navigates by it.
#[derive(Clone, Copy, Debug, Default, PartialEq, Eq, Structural)]
pub enum Aspect {
    /// The credentials that the wallet holds.
    #[default]
    CredentialList,
    /// One credential.
    CredentialDetail,
    /// The scanner for an offer.
    IssuanceScan,
    /// An offer, for the holder to accept or to turn down.
    IssuanceOffer,
    /// The scanner for a presentation request.
    PresentationScan,
    /// An error.
    Error,
}

/// What went wrong with a call to an issuer's service.
#[derive(Clone, Debug, PartialEq, Eq)]
pub struct HttpError {
    /// What the transport says of the failure.
    pub message: String,
}

impl View for HttpError {
    type V = Seq<char>;

    open spec fn view(&self) -> Seq<char> {
        self.message@
    }
}

impl HttpError {
    /// The text shown for this error.
    pub fn to_string(&self) -> (text: String)
        ensures
            text@ == self@,
    {
        self.message.clone()
    }
}

/// What can happen to the wallet. An event comes from the shell, when the
/// holder does something, or from the core itself, when work that it asked
/// for is done.
#[derive(Debug, PartialEq, Eq)]
pub enum Event {
    /// An error has occurred.
    Error(String),
    /// The shell has started.
    Ready,
    /// The holder has selected a credential to look at.
    SelectCredential(String),
    /// The holder wants a credential deleted.
    DeleteCredential(String),
    /// The store has listed the credentials.
    CredentialsLoaded(Result<Vec<StoreEntry>, StoreError>),
    /// The store has kept a credential.
    CredentialStored(Result<(), StoreError>),
    /// The store has deleted a credential.
    CredentialDeleted(Result<(), StoreError>),
    /// The holder wants to scan an offer.
    ScanIssuanceOffer,
    /// The holder has scanned an offer.
    IssuanceOffer(String),
    /// The issuer's metadata has come in.
    IssuanceIssuer(Result<Issuer, HttpError>),
    /// The logo of the credential on offer under the given identifier has
    /// been fetched.
    IssuanceLogo(Result<(String, ImageData), HttpError>),
    /// The background image of the credential on offer under the given
    /// identifier has been fetched.
    IssuanceBackground(Result<(String, ImageData), HttpError>),
    /// The holder has accepted the offer.
    IssuanceAccepted,
    /// The holder has entered a PIN.
    IssuancePin(String),
    /// The issuer has answered the token request.
    IssuanceToken(Result<TokenResponse, HttpError>),
    /// The signer has made the proof of possession.
    IssuanceProof(Result<String, String>),
    /// The issuer has handed out the credential for the configuration under
    /// the given identifier.
    IssuanceCredential(Result<(String, IssuedCredential), HttpError>),
    /// The issuer has deferred the credential for the configuration under
    /// the given identifier: it hands it out later, under the transaction
    /// named.
    IssuanceDeferred(Result<(String, String), HttpError>),
    /// The store has kept the credential for the configuration under the
    /// given identifier.
    IssuanceStored(Result<String, StoreError>),
    /// The holder gives the issuance up.
    CancelIssuance,
}

/// The mathematical value of an [`Event`].
pub ghost enum EventView {
    Error(Seq<char>),
    Ready,
    SelectCredential(Seq<char>),
    DeleteCredential(Seq<char>),
    CredentialsLoaded(Result<Seq<Option<Seq<u8>>>, StoreErrorView>),
    CredentialStored(Result<(), StoreErrorView>),
    CredentialDeleted(Result<(), StoreErrorView>),
    ScanIssuanceOffer,
    IssuanceOffer(Seq<char>),
    IssuanceIssuer(Result<IssuerView, Seq<char>>),
    IssuanceLogo(Result<(Seq<char>, ImageDataView), Seq<char>>),
    IssuanceBackground(Result<(Seq<char>, ImageDataView), Seq<char>>),
    IssuanceAccepted,
    IssuancePin(Seq<char>),
    IssuanceToken(Result<TokenResponseView, Seq<char>>),
    IssuanceProof(Result<Seq<char>, Seq<char>>),
    IssuanceCredential(Result<(Seq<char>, IssuedCredentialView), Seq<char>>),
    IssuanceDeferred(Result<(Seq<char>, Seq<char>), Seq<char>>),
    IssuanceStored(Result<Seq<char>, StoreErrorView>),
    CancelIssuance,
}

impl View for Event {
    type V = EventView;

    open spec fn view(&self) -> EventView {
        match self {
            Event::Error(error) => EventView::Error(error@),
            Event::Ready => EventView::Ready,
            Event::SelectCredential(id) => EventView::SelectCredential(id@),
            Event::DeleteCredential(id) => EventView::DeleteCredential(id@),
            Event::CredentialsLoaded(Ok(entries)) => EventView::CredentialsLoaded(
                Ok(entries_view(entries@)),
            ),
            Event::CredentialsLoaded(Err(error)) => EventView::CredentialsLoaded(Err(error@)),
            Event::CredentialStored(Ok(())) => EventView::CredentialStored(Ok(())),
            Event::CredentialStored(Err(error)) => EventView::CredentialStored(Err(error@)),
            Event::CredentialDeleted(Ok(())) => EventView::CredentialDeleted(Ok(())),
            Event::CredentialDeleted(Err(error)) => EventView::CredentialDeleted(Err(error@)),
            Event::ScanIssuanceOffer => EventView::ScanIssuanceOffer,
            Event::IssuanceOffer(encoded) => EventView::IssuanceOffer(encoded@),
            Event::IssuanceIssuer(Ok(issuer)) => EventView::IssuanceIssuer(Ok(issuer@)),
            Event::IssuanceIssuer(Err(error)) => EventView::IssuanceIssuer(Err(error@)),
            Event::IssuanceLogo(Ok((id, image))) => EventView::IssuanceLogo(Ok((id@, image@))),
            Event::IssuanceLogo(Err(error)) => EventView::IssuanceLogo(Err(error@)),
            Event::IssuanceBackground(Ok((id, image))) => EventView::IssuanceBackground(
                Ok((id@, image@)),
            ),
            Event::IssuanceBackground(Err(error)) => EventView::IssuanceBackground(Err(error@)),
            Event::IssuanceAccepted => EventView::IssuanceAccepted,
            Event::IssuancePin(pin) => EventView::IssuancePin(pin@),
            Event::IssuanceToken(Ok(token)) => EventView::IssuanceToken(Ok(token@)),
            Event::IssuanceToken(Err(error)) => EventView::IssuanceToken(Err(error@)),
            Event::IssuanceProof(Ok(jwt)) => EventView::IssuanceProof(Ok(jwt@)),
            Event::IssuanceProof(Err(error)) => EventView::IssuanceProof(Err(error@)),
            Event::IssuanceCredential(Ok((id, issued))) => EventView::IssuanceCredential(
                Ok((id@, issued@)),
            ),
            Event::IssuanceCredential(Err(error)) => EventView::IssuanceCredential(Err(error@)),
            Event::IssuanceDeferred(Ok((id, transaction))) => EventView::IssuanceDeferred(
                Ok((id@, transaction@)),
            ),
            Event::IssuanceDeferred(Err(error)) => EventView::IssuanceDeferred(Err(error@)),
            Event::IssuanceStored(Ok(id)) => EventView::IssuanceStored(Ok(id@)),
            Event::IssuanceStored(Err(error)) => EventView::IssuanceStored(Err(error@)),
            Event::CancelIssuance => EventView::CancelIssuance,
        }
    }
}

/// The event in which the answer to a request to the store comes back.
#[derive(Clone, Debug, PartialEq, Eq)]
pub enum StoreThen {
    /// [`Event::CredentialsLoaded`].
    CredentialsLoaded,
    /// [`Event::CredentialStored`].
    CredentialStored,
    /// [`Event::CredentialDeleted`].
    CredentialDeleted,
    /// [`Event::IssuanceStored`], for the configuration under the given
    /// identifier.
    IssuanceStored { config_id: String },
}

/// The mathematical value of a [`StoreThen`].
pub ghost enum StoreThenView {
    CredentialsLoaded,
    CredentialStored,
    CredentialDeleted,
    IssuanceStored { config_id: Seq<char> },
}

impl View for StoreThen {
    type V = StoreThenView;

    open spec fn view(&self) -> StoreThenView {
        match self {
            StoreThen::CredentialsLoaded => StoreThenView::CredentialsLoaded,
            StoreThen::CredentialStored => StoreThenView::CredentialStored,
            StoreThen::CredentialDeleted => StoreThenView::CredentialDeleted,
            StoreThen::IssuanceStored { config_id } => StoreThenView::IssuanceStored {
                config_id: config_id@,
            },
        }
    }
}

/// Work that the core asks of the shell. The core does none of it itself;
/// the shell does it and hands the result back as an event.
#[derive(Clone, Debug, PartialEq, Eq)]
pub enum Effect {
    /// Draw the view again. Nothing comes back.
    Render,
    /// Carry out a request to the store; the answer comes back in the
    /// event that `then` names.
    Store { operation: StoreOperation, then: StoreThen },
    /// Fetch the issuer's metadata; it comes back in
    /// [`Event::IssuanceIssuer`].
    Metadata { request: MetadataRequest },
    /// Fetch an image; it comes back in [`Event::IssuanceLogo`] or
    /// [`Event::IssuanceBackground`].
    Image { request: ImageRequest },
    /// Ask the issuer for an access token; it comes back in
    /// [`Event::IssuanceToken`].
    Token { request: TokenRequest },
    /// Ask the signer for a proof of possession; it comes back in
    /// [`Event::IssuanceProof`].
    Proof { request: ProofRequest },
    /// Ask the issuer for a credential; it comes back in
    /// [`Event::IssuanceCredential`], or, where the issuer defers it, in
    /// [`Event::IssuanceDeferred`].
    Credential { config_id: String, request: CredentialRequest },
    /// Purge what is persisted of a flow under its identifier. Nothing
    /// comes back.
    Purge { issuance_id: String },
}

/// The mathematical value of an [`Effect`].
pub ghost enum EffectView {
    Render,
    Store { operation: StoreOperationView, then: StoreThenView },
    Metadata { request: MetadataRequestView },
    Image { request: ImageRequestView },
    Token { request: TokenRequestView },
    Proof { request: ProofRequestView },
    Credential { config_id: Seq<char>, request: CredentialRequestView },
    Purge { issuance_id: Seq<char> },
}

impl View for Effect {
    type V = EffectView;

    open spec fn view(&self) -> EffectView {
        match self {
            Effect::Render => EffectView::Render,
            Effect::Store { operation, then } => EffectView::Store {
                operation: operation@,
                then: then@,
            },
            Effect::Metadata { request } => EffectView::Metadata { request: request@ },
            Effect::Image { request } => EffectView::Image { request: request@ },
            Effect::Token { request } => EffectView::Token { request: request@ },
            Effect::Proof { request } => EffectView::Proof { request: request@ },
            Effect::Credential { config_id, request } => EffectView::Credential {
                config_id: config_id@,
                request: request@,
            },
            Effect::Purge { issuance_id } => EffectView::Purge { issuance_id: issuance_id@ },
        }
    }
}

impl StoreThen {
    /// A copy of this name of an event.
    pub fn duplicate(&self) -> (copy: StoreThen)
        ensures
            copy@ == self@,
    {
        match self {
            StoreThen::CredentialsLoaded => StoreThen::CredentialsLoaded,
            StoreThen::CredentialStored => StoreThen::CredentialStored,
            StoreThen::CredentialDeleted => StoreThen::CredentialDeleted,
            StoreThen::IssuanceStored { config_id } => StoreThen::IssuanceStored {
                config_id: config_id.clone(),
            },
        }
    }
}

impl Effect {
    /// A copy of this effect.
    pub fn duplicate(&self) -> (copy: Effect)
        ensures
            copy@ == self@,
    {
        match self {
            Effect::Render => Effect::Render,
            Effect::Store { operation, then } => Effect::Store {
                operation: operation.duplicate(),
                then: then.duplicate(),
            },
            Effect::Metadata { request } => Effect::Metadata { request: request.duplicate() },
            Effect::Image { request } => Effect::Image { request: request.duplicate() },
            Effect::Token { request } => Effect::Token { request: request.duplicate() },
            Effect::Proof { request } => Effect::Proof { request: request.duplicate() },
            Effect::Credential { config_id, request } => Effect::Credential {
                config_id: config_id.clone(),
                request: request.duplicate(),
            },
            Effect::Purge { issuance_id } => Effect::Purge { issuance_id: issuance_id.clone() },
        }
    }
}

/// The values of a list of effects, effect by effect.
pub open spec fn effects_view(effects: Seq<Effect>) -> Seq<EffectView> {
    Seq::new(effects.len(), |i: int| effects[i]@)
}

/// What the calls that an update makes outside the library gave: the
/// reading of an offer, or the printing of a credential.
#[derive(Debug, PartialEq, Eq)]
pub enum Resolved {
    /// The event calls for nothing from outside.
    Nothing,
    /// What reading the encoded offer gave.
    Offer(Result<CredentialOffer, DecodeError>),
    /// What printing the credential gave: its bytes, or the printer's
    /// message.
    Printed(Result<Vec<u8>, String>),
}

/// The mathematical value of a [`Resolved`].
pub ghost enum ResolvedView {
    Nothing,
    Offer(Result<CredentialOfferView, DecodeErrorView>),
    Printed(Result<Seq<u8>, Seq<char>>),
}

impl View for Resolved {
    type V = ResolvedView;

    open spec fn view(&self) -> ResolvedView {
        match self {
            Resolved::Nothing => ResolvedView::Nothing,
            Resolved::Offer(decoded) => ResolvedView::Offer(decoded_view(*decoded)),
            Resolved::Printed(printed) => ResolvedView::Printed(printed_view(*printed)),
        }
    }
}

/// What the calls outside the library give for the event: for a scanned
/// offer, what reading it gives; for a credential that the issuance waits
/// for, the printed credential; for anything else, nothing.
pub open spec fn resolved(model: ModelView, event: EventView) -> ResolvedView {
    match event {
        EventView::IssuanceOffer(encoded) => ResolvedView::Offer(offer_decoded(encoded)),
        EventView::IssuanceCredential(Ok((id, issued))) => match model.credential(id, issued) {
            Some(credential) => ResolvedView::Printed(Ok(credential.bytes())),
            None => ResolvedView::Nothing,
        },
        _ => ResolvedView::Nothing,
    }
}

/// Whether `outside` is what the calls outside the library give for the
/// event.
pub open spec fn resolves(model: ModelView, event: EventView, outside: ResolvedView) -> bool {
    outside == resolved(model, event)
}

/// What an event makes of the model, and the effects that it calls for,
/// with what the calls outside the library give for it.
pub open spec fn update_spec(model: ModelView, event: EventView) -> (ModelView, Seq<EffectView>) {
    step_spec(model, event, resolved(model, event))
}

/// The request to list the credentials, answered in
/// [`Event::CredentialsLoaded`].
pub open spec fn list_effect() -> EffectView {
    EffectView::Store {
        operation: StoreOperationView::List { catalog: Catalog::Credential.name() },
        then: StoreThenView::CredentialsLoaded,
    }
}

/// One effect for each image to fetch.
pub open spec fn image_effects(requests: Seq<ImageRequestView>) -> Seq<EffectView> {
    Seq::new(requests.len(), |i: int| EffectView::Image { request: requests[i] })
}

/// One effect for each credential to ask for.
pub open spec fn credential_effects(requests: Seq<(Seq<char>, CredentialRequestView)>) -> Seq<
    EffectView,
> {
    Seq::new(
        requests.len(),
        |i: int| EffectView::Credential { config_id: requests[i].0, request: requests[i].1 },
    )
}

/// The effect that an optional request stands for, if any.
pub open spec fn optional_effect(effect: Option<EffectView>) -> Seq<EffectView> {
    match effect {
        Some(e) => seq![e],
        None => Seq::empty(),
    }
}

/// The request for the issuer's metadata that a scanned offer calls for:
/// none where the offer starts no issuance.
pub open spec fn offer_effect(decoded: Result<CredentialOfferView, DecodeErrorView>) -> Option<
    EffectView,
> {
    match decoded {
        Ok(offer) => if offer.pre_authorized_code() is Some {
            Some(
                EffectView::Metadata {
                    request: MetadataRequestView { credential_issuer: offer.credential_issuer },
                },
            )
        } else {
            None
        },
        Err(_) => None,
    }
}

impl EventView {
    /// The error that the event reports, if it reports one: the text of an
    /// error event, and the text of the failure of work that was asked
    /// for.
    pub open spec fn failure(self) -> Option<Seq<char>> {
        match self {
            EventView::Error(error) => Some(error),
            EventView::CredentialsLoaded(Err(error)) => Some(error.text()),
            EventView::CredentialStored(Err(error)) => Some(error.text()),
            EventView::CredentialDeleted(Err(error)) => Some(error.text()),
            EventView::IssuanceStored(Err(error)) => Some(error.text()),
            EventView::IssuanceIssuer(Err(error)) => Some(error),
            EventView::IssuanceLogo(Err(error)) => Some(error),
            EventView::IssuanceBackground(Err(error)) => Some(error),
            EventView::IssuanceToken(Err(error)) => Some(error),
            EventView::IssuanceCredential(Err(error)) => Some(error),
            EventView::IssuanceDeferred(Err(error)) => Some(error),
            EventView::IssuanceProof(Err(error)) => Some(error),
            _ => None,
        }
    }
}

/// What an event of the credentials part makes of the model, and the
/// effects that it calls for: `None` for any other event.
pub open spec fn credentials_step(model: ModelView, event: EventView) -> Option<
    (ModelView, Seq<EffectView>),
> {
    match event {
        EventView::Ready => Some((model.on_ready(), seq![list_effect(), EffectView::Render])),
        EventView::SelectCredential(id) => Some((model.on_select(id), seq![EffectView::Render])),
        EventView::DeleteCredential(id) => Some(
            (
                model,
                seq![
                    EffectView::Store {
                        operation: StoreOperationView::Delete {
                            catalog: Catalog::Credential.name(),
                            id,
                        },
                        then: StoreThenView::CredentialDeleted,
                    },
                ],
            ),
        ),
        EventView::CredentialsLoaded(Ok(entries)) => Some(
            (model.on_loaded(entries), seq![EffectView::Render]),
        ),
        EventView::CredentialStored(Ok(())) => Some((model, seq![list_effect()])),
        EventView::CredentialDeleted(Ok(())) => Some(
            (model.on_deleted(), seq![list_effect(), EffectView::Render]),
        ),
        _ => None,
    }
}

/// What an event of an issuance makes of the model, and the effects that
/// it calls for. Any other event changes nothing.
pub open spec fn issuance_step(model: ModelView, event: EventView, outside: ResolvedView) -> (
    ModelView,
    Seq<EffectView>,
) {
    match event {
        EventView::ScanIssuanceOffer => (model.on_scan(), seq![EffectView::Render]),
        EventView::IssuanceOffer(_) => match outside {
            ResolvedView::Offer(decoded) => (
                model.on_offer(decoded),
                optional_effect(offer_effect(decoded)).push(EffectView::Render),
            ),
            _ => (model, seq![EffectView::Render]),
        },
        EventView::IssuanceIssuer(Ok(issuer)) => (
            model.on_issuer(issuer),
            image_effects(model.issuer_requests(issuer)).push(EffectView::Render),
        ),
        EventView::IssuanceLogo(Ok((id, image))) => (
            model.on_change(id, ChangeView::Logo(image)),
            seq![EffectView::Render],
        ),
        EventView::IssuanceBackground(Ok((id, image))) => (
            model.on_change(id, ChangeView::Background(image)),
            seq![EffectView::Render],
        ),
        EventView::IssuanceAccepted => (
            model.on_accept(),
            optional_effect(
                match model.accept_request() {
                    Some(request) => Some(EffectView::Token { request }),
                    None => None,
                },
            ).push(EffectView::Render),
        ),
        EventView::IssuancePin(pin) => (model.on_pin(pin), seq![EffectView::Render]),
        EventView::IssuanceToken(Ok(token)) => (
            model.on_token(token),
            optional_effect(
                match model.token_request(token) {
                    Some(request) => Some(EffectView::Proof { request }),
                    None => None,
                },
            ).push(EffectView::Render),
        ),
        EventView::IssuanceProof(Ok(jwt)) => (
            model.on_proof(jwt),
            credential_effects(model.proof_requests(jwt)).push(EffectView::Render),
        ),
        EventView::IssuanceCredential(Ok((id, issued))) => match outside {
            ResolvedView::Printed(printed) => (
                model.on_credential(id, issued, printed),
                optional_effect(
                    match model.credential_request(id, issued, printed) {
                        Some(operation) => Some(
                            EffectView::Store {
                                operation,
                                then: StoreThenView::IssuanceStored { config_id: id },
                            },
                        ),
                        None => None,
                    },
                ).push(EffectView::Render),
            ),
            _ => (model, seq![EffectView::Render]),
        },
        EventView::IssuanceDeferred(Ok((id, _))) => (
            model.on_deferred(id),
            optional_effect(
                if model.defers_last(id) {
                    Some(list_effect())
                } else {
                    None
                },
            ).push(EffectView::Render),
        ),
        EventView::IssuanceStored(Ok(id)) => (
            model.on_stored(id),
            optional_effect(
                if model.completes(id) {
                    Some(list_effect())
                } else {
                    None
                },
            ).push(EffectView::Render),
        ),
        EventView::CancelIssuance => (
            model.on_cancel(),
            optional_effect(
                match model.issuance_id() {
                    Some(issuance_id) => Some(EffectView::Purge { issuance_id }),
                    None => None,
                },
            ).push(EffectView::Render),
        ),
        _ => (model, seq![EffectView::Render]),
    }
}

/// What an event makes of the model, and the effects that it calls for,
/// in the order in which the shell is to start them. An error is shown,
/// and leaves an issuance in progress as it is. An answer that the
/// issuance no longer waits for changes nothing. The view is drawn again
/// after every event but those that only pass a request on to the store.
pub open spec fn step_spec(model: ModelView, event: EventView, outside: ResolvedView) -> (
    ModelView,
    Seq<EffectView>,
) {
    match event.failure() {
        Some(error) => (model.with_error(error), seq![EffectView::Render]),
        None => match credentials_step(model, event) {
            Some(step) => step,
            None => issuance_step(model, event, outside),
        },
    }
}

/// The request to list the credentials.
fn list_credentials() -> (effect: Effect)
    ensures
        effect@ == list_effect(),
{
    let catalog = Catalog::Credential.to_string();
    Effect::Store { operation: list(catalog.as_str()), then: StoreThen::CredentialsLoaded }
}

/// The effects of an update: those given, if any, and then a render.
fn then_render(first: Option<Effect>) -> (effects: Vec<Effect>)
    ensures
        effects_view(effects@) == optional_effect(
            match first {
                Some(e) => Some(e@),
                None => None,
            },
        ).push(EffectView::Render),
{
    let mut effects: Vec<Effect> = Vec::new();
    match first {
        Some(effect) => {
            effects.push(effect);
        },
        None => {},
    }
    effects.push(Effect::Render);
    assert(effects_view(effects@) =~= optional_effect(
        match first {
            Some(e) => Some(e@),
            None => None,
        },
    ).push(EffectView::Render));
    effects
}

/// A render and nothing else.
fn render() -> (effects: Vec<Effect>)
    ensures
        effects_view(effects@) == seq![EffectView::Render],
{
    let effects = vec![Effect::Render];
    assert(effects_view(effects@) =~= seq![EffectView::Render]);
    effects
}

/// Shows an error and draws the view again.
fn fail(model: &mut Model, error: String) -> (effects: Vec<Effect>)
    ensures
        final(model)@ == old(model)@.with_error(error@),
        effects_view(effects@) == seq![EffectView::Render],
        old(model)@.wf() ==> final(model)@.wf(),
{
    model.error(error);
    render()
}

/// Takes in an offer that has been read.
fn offered(model: &mut Model, decoded: Result<CredentialOffer, DecodeError>) -> (effects: Vec<Effect>)
    ensures
        final(model)@ == old(model)@.on_offer(decoded_view(decoded)),
        effects_view(effects@) == optional_effect(offer_effect(decoded_view(decoded))).push(
            EffectView::Render,
        ),
        old(model)@.wf() ==> final(model)@.wf(),
{
    let request = match &decoded {
        Ok(offer) => {
            if offer.pre_authorized_code().is_some() {
                Some(
                    Effect::Metadata {
                        request: MetadataRequest {
                            credential_issuer: offer.credential_issuer.clone(),
                        },
                    },
                )
            } else {
                None
            }
        },
        Err(_) => None,
    };
    model.issuance_offer_decoded(decoded);
    then_render(request)
}

/// Takes in the issuer's metadata.
fn issuer_known(model: &mut Model, issuer: Issuer) -> (effects: Vec<Effect>)
    ensures
        final(model)@ == old(model)@.on_issuer(issuer@),
        effects_view(effects@) == image_effects(old(model)@.issuer_requests(issuer@)).push(
            EffectView::Render,
        ),
        old(model)@.wf() ==> final(model)@.wf(),
{
    let requests = model.issuance_issuer(&issuer);
    let mut effects: Vec<Effect> = Vec::new();
    let ghost all = image_requests_view(requests@);
    let mut i: usize = 0;
    while i < requests.len()
        invariant
            i <= requests.len(),
            all == image_requests_view(requests@),
            effects@.len() == i,
            forall|k: int|
                0 <= k < i ==> (#[trigger] effects@[k])@ == (EffectView::Image { request: all[k] }),
        decreases requests.len() - i,
    {
        effects.push(Effect::Image { request: requests[i].duplicate() });
        i += 1;
    }
    effects.push(Effect::Render);
    assert(effects_view(effects@) =~= image_effects(all).push(EffectView::Render));
    effects
}

/// Takes in the proof of possession.
fn proven(model: &mut Model, jwt: String) -> (effects: Vec<Effect>)
    ensures
        final(model)@ == old(model)@.on_proof(jwt@),
        effects_view(effects@) == credential_effects(old(model)@.proof_requests(jwt@)).push(
            EffectView::Render,
        ),
        old(model)@.wf() ==> final(model)@.wf(),
{
    let requests = model.issuance_proof(jwt);
    let mut effects: Vec<Effect> = Vec::new();
    let ghost all = credential_requests_view(requests@);
    let mut i: usize = 0;
    while i < requests.len()
        invariant
            i <= requests.len(),
            all == credential_requests_view(requests@),
            effects@.len() == i,
            forall|k: int|
                0 <= k < i ==> (#[trigger] effects@[k])@ == (EffectView::Credential {
                    config_id: all[k].0,
                    request: all[k].1,
                }),
        decreases requests.len() - i,
    {
        effects.push(
            Effect::Credential {
                config_id: requests[i].0.clone(),
                request: requests[i].1.duplicate(),
            },
        );
        i += 1;
    }
    effects.push(Effect::Render);
    assert(effects_view(effects@) =~= credential_effects(all).push(EffectView::Render));
    effects
}

/// The value of a failure that was taken out of an event, or of the
/// event where it reports none.
pub open spec fn taken_view(taken: Result<String, Event>) -> Result<Seq<char>, EventView> {
    match taken {
        Ok(error) => Ok(error@),
        Err(event) => Err(event@),
    }
}

/// Takes the error that an event reports out of it; an event that reports
/// none comes back as it is.
fn failure(event: Event) -> (taken: Result<String, Event>)
    ensures
        taken_view(taken) == match event@.failure() {
            Some(error) => Ok::<_, EventView>(error),
            None => Err::<Seq<char>, _>(event@),
        },
{
    match event {
        Event::Error(error) => Ok(error),
        Event::CredentialsLoaded(Err(error)) => Ok(error.to_string()),
        Event::CredentialStored(Err(error)) => Ok(error.to_string()),
        Event::CredentialDeleted(Err(error)) => Ok(error.to_string()),
        Event::IssuanceStored(Err(error)) => Ok(error.to_string()),
        Event::IssuanceIssuer(Err(error)) => Ok(error.to_string()),
        Event::IssuanceLogo(Err(error)) => Ok(error.to_string()),
        Event::IssuanceBackground(Err(error)) => Ok(error.to_string()),
        Event::IssuanceToken(Err(error)) => Ok(error.to_string()),
        Event::IssuanceCredential(Err(error)) => Ok(error.to_string()),
        Event::IssuanceDeferred(Err(error)) => Ok(error.to_string()),
        Event::IssuanceProof(Err(error)) => Ok(error),
        other => Err(other),
    }
}

/// Handles an event of the credentials part; any other event comes back
/// as it is.
fn credentials(event: Event, model: &mut Model) -> (handled: Result<Vec<Effect>, Event>)
    ensures
        match credentials_step(old(model)@, event@) {
            Some(step) => handled matches Ok(effects) && (final(model)@, effects_view(effects@))
                == step,
            None => handled matches Err(other) && other@ == event@ && final(model)@ == old(model)@,
        },
        old(model)@.wf() ==> final(model)@.wf(),
{
    match event {
        Event::Ready => {
            model.ready();
            let effects = vec![list_credentials(), Effect::Render];
            assert(effects_view(effects@) =~= seq![list_effect(), EffectView::Render]);
            Ok(effects)
        },
        Event::SelectCredential(id) => {
            model.select_credential(id);
            Ok(render())
        },
        Event::DeleteCredential(id) => {
            let catalog = Catalog::Credential.to_string();
            let effect = Effect::Store {
                operation: delete(catalog.as_str(), id.as_str()),
                then: StoreThen::CredentialDeleted,
            };
            let effects = vec![effect];
            assert(effects_view(effects@) =~= seq![effect@]);
            Ok(effects)
        },
        Event::CredentialsLoaded(Ok(entries)) => {
            model.credentials_loaded(entries);
            Ok(render())
        },
        Event::CredentialStored(Ok(())) => {
            let effects = vec![list_credentials()];
            assert(effects_view(effects@) =~= seq![list_effect()]);
            Ok(effects)
        },
        Event::CredentialDeleted(Ok(())) => {
            model.delete_credential();
            let effects = vec![list_credentials(), Effect::Render];
            assert(effects_view(effects@) =~= seq![list_effect(), EffectView::Render]);
            Ok(effects)
        },
        other => Err(other),
    }
}

/// Handles an event of an issuance.
fn issuance(event: Event, model: &mut Model, outside: Resolved) -> (effects: Vec<Effect>)
    ensures
        (final(model)@, effects_view(effects@)) == issuance_step(old(model)@, event@, outside@),
        old(model)@.wf() ==> final(model)@.wf(),
{
    match event {
        Event::ScanIssuanceOffer => {
            model.scan_issuance_offer();
            render()
        },
        Event::IssuanceOffer(_) => match outside {
            Resolved::Offer(decoded) => offered(model, decoded),
            _ => render(),
        },
        Event::IssuanceIssuer(Ok(issuer)) => issuer_known(model, issuer),
        Event::IssuanceLogo(Ok((id, image))) => {
            model.issuance_change(id.as_str(), &Change::Logo(image));
            render()
        },
        Event::IssuanceBackground(Ok((id, image))) => {
            model.issuance_change(id.as_str(), &Change::Background(image));
            render()
        },
        Event::IssuanceAccepted => {
            let request = match model.issuance_accepted() {
                Some(request) => Some(Effect::Token { request }),
                None => None,
            };
            then_render(request)
        },
        Event::IssuancePin(pin) => {
            model.issuance_pin(pin.as_str());
            render()
        },
        Event::IssuanceToken(Ok(token)) => {
            let request = match model.issuance_token(token) {
                Some(request) => Some(Effect::Proof { request }),
                None => None,
            };
            then_render(request)
        },
        Event::IssuanceProof(Ok(jwt)) => proven(model, jwt),
        Event::IssuanceCredential(Ok((id, issued))) => match outside {
            Resolved::Printed(printed) => {
                let request = match model.issuance_received(id.as_str(), &issued, printed) {
                    Some(operation) => Some(
                        Effect::Store {
                            operation,
                            then: StoreThen::IssuanceStored { config_id: id },
                        },
                    ),
                    None => None,
                };
                then_render(request)
            },
            _ => render(),
        },
        Event::IssuanceDeferred(Ok((id, _))) => {
            let request = if model.issuance_deferred(id.as_str()) {
                Some(list_credentials())
            } else {
                None
            };
            then_render(request)
        },
        Event::IssuanceStored(Ok(id)) => {
            let request = if model.issuance_stored(id.as_str()) {
                Some(list_credentials())
            } else {
                None
            };
            then_render(request)
        },
        Event::CancelIssuance => {
            let request = match model.cancel_issuance() {
                Some(issuance_id) => Some(Effect::Purge { issuance_id }),
                None => None,
            };
            then_render(request)
        },
        _ => render(),
    }
}

/// The application. It holds nothing: the state is in the [`Model`].
#[derive(Clone, Copy, Debug, Default, PartialEq, Eq)]
pub struct App;

impl App {
    /// Makes the calls outside the library that the event calls for.
    pub fn resolve(&self, event: &Event, model: &Model) -> (outside: Resolved)
        ensures
            outside@ == resolved(model@, event@),
    {
        match event {
            Event::IssuanceOffer(encoded) => Resolved::Offer(CredentialOffer::decode(encoded.as_str())),
            Event::IssuanceCredential(Ok((id, issued))) => {
                match model.issuance_credential(id.as_str(), issued) {
                    Some(credential) => Resolved::Printed(credential.encode()),
                    None => Resolved::Nothing,
                }
            },
            _ => Resolved::Nothing,
        }
    }

    /// Handles an event, given what the calls outside the library gave
    /// for it: changes the model and says what effects the shell is to
    /// start, in their order.
    pub fn step(&self, event: Event, model: &mut Model, outside: Resolved) -> (effects: Vec<Effect>)
        ensures
            (final(model)@, effects_view(effects@)) == step_spec(old(model)@, event@, outside@),
            old(model)@.wf() ==> final(model)@.wf(),
    {
        match failure(event) {
            Ok(error) => fail(model, error),
            Err(event) => match credentials(event, model) {
                Ok(effects) => effects,
                Err(event) => issuance(event, model, outside),
            },
        }
    }

    /// What the shell shows of the model, for the default locale. Nothing
    /// is changed by it.
    pub fn view(&self, model: &Model) -> (shown: ViewModel)
        ensures
            shown@ == Shown::of_model(model@, None),
    {
        ViewModel::from_model(model, &None)
    }

    /// Handles an event: changes the model and says what effects the shell
    /// is to start, in their order. It is called once for each event, and
    /// nothing else changes the model.
    pub fn update(&self, msg: Event, model: &mut Model) -> (effects: Vec<Effect>)
        ensures
            (final(model)@, effects_view(effects@)) == update_spec(old(model)@, msg@),
            old(model)@.wf() ==> final(model)@.wf(),
    {
        let outside = self.resolve(&msg, model);
        self.step(msg, model, outside)
    }
}

} // verus!
