//! The bridge between the core and its shell. The core hands out requests
//! for the effects of an update; the shell hands back, for each request
//! that has an answer, one response, which comes in as the next event.

use crate::app::{
    effects_view, update_spec, App, Effect, EffectView, Event, EventView, HttpError, StoreThen,
    StoreThenView,
};
use crate::capabilities::store::{StoreResult, StoreResultView};
use crate::holder::credential::{ImageData, ImageDataView};
use crate::holder::metadata::{
    IssuedCredential, IssuedCredentialView, Issuer, IssuerView, TokenResponse, TokenResponseView,
};
use crate::json::optional_string_view;
use crate::model::issuance::ImageKind;
use crate::model::{Model, ModelView};
use crate::view::{Shown, ViewModel};
use vstd::prelude::*;

verus! {

/// What the shell hands back for a request.
#[derive(Debug, PartialEq, Eq)]
pub enum Response {
    /// The outcome of a request to the store.
    Store(StoreResult),
    /// The issuer's metadata.
    Issuer(Result<Issuer, HttpError>),
    /// An image.
    Image(Result<ImageData, HttpError>),
    /// The issuer's answer to a token request.
    Token(Result<TokenResponse, HttpError>),
    /// The signer's proof of possession.
    Proof(Result<String, String>),
    /// The credential that the issuer handed out.
    Credential(Result<IssuedCredential, HttpError>),
    /// The transaction under which the issuer hands a credential out
    /// later.
    Deferred(Result<String, HttpError>),
}

/// The mathematical value of a [`Response`].
pub ghost enum ResponseView {
    Store(StoreResultView),
    Issuer(Result<IssuerView, Seq<char>>),
    Image(Result<ImageDataView, Seq<char>>),
    Token(Result<TokenResponseView, Seq<char>>),
    Proof(Result<Seq<char>, Seq<char>>),
    Credential(Result<IssuedCredentialView, Seq<char>>),
    Deferred(Result<Seq<char>, Seq<char>>),
}

impl View for Response {
    type V = ResponseView;

    open spec fn view(&self) -> ResponseView {
        match self {
            Response::Store(result) => ResponseView::Store(result@),
            Response::Issuer(Ok(issuer)) => ResponseView::Issuer(Ok(issuer@)),
            Response::Issuer(Err(error)) => ResponseView::Issuer(Err(error@)),
            Response::Image(Ok(image)) => ResponseView::Image(Ok(image@)),
            Response::Image(Err(error)) => ResponseView::Image(Err(error@)),
            Response::Token(Ok(token)) => ResponseView::Token(Ok(token@)),
            Response::Token(Err(error)) => ResponseView::Token(Err(error@)),
            Response::Proof(Ok(jwt)) => ResponseView::Proof(Ok(jwt@)),
            Response::Proof(Err(error)) => ResponseView::Proof(Err(error@)),
            Response::Credential(Ok(issued)) => ResponseView::Credential(Ok(issued@)),
            Response::Credential(Err(error)) => ResponseView::Credential(Err(error@)),
            Response::Deferred(Ok(transaction)) => ResponseView::Deferred(Ok(transaction@)),
            Response::Deferred(Err(error)) => ResponseView::Deferred(Err(error@)),
        }
    }
}

/// A request to the shell: an effect to carry out, and, where the effect
/// has an answer, the identifier under which the answer is to come back.
#[derive(Clone, Debug, PartialEq, Eq)]
pub struct Request {
    pub id: Option<usize>,
    pub effect: Effect,
}

/// The mathematical value of a [`Request`].
pub ghost struct RequestView {
    pub id: Option<int>,
    pub effect: EffectView,
}

impl View for Request {
    type V = RequestView;

    open spec fn view(&self) -> RequestView {
        RequestView {
            id: match self.id {
                Some(id) => Some(id as int),
                None => None,
            },
            effect: self.effect@,
        }
    }
}

/// The values of a list of requests, request by request.
pub open spec fn requests_view(requests: Seq<Request>) -> Seq<RequestView> {
    Seq::new(requests.len(), |i: int| requests[i]@)
}

/// Why the bridge refused a response.
#[derive(Clone, Copy, Debug, PartialEq, Eq, Structural)]
pub enum BridgeError {
    /// No request is open under the identifier: none was made under it, or
    /// its response has come in already.
    UnknownRequest,
    /// The response is not of the kind that the request under the
    /// identifier asks for. The request is closed.
    UnexpectedResponse,
}

impl EffectView {
    /// Whether the shell has something to hand back for the effect.
    pub open spec fn answered(self) -> bool {
        !(self is Render || self is Purge)
    }

    /// Whether the effect belongs to the issuance that is in progress when
    /// it is asked for: so do the fetching of images, the requests for a
    /// token, a proof and a credential, and the storing of an issued
    /// credential.
    pub open spec fn bound_to_flow(self) -> bool {
        match self {
            EffectView::Image { .. } => true,
            EffectView::Token { .. } => true,
            EffectView::Proof { .. } => true,
            EffectView::Credential { .. } => true,
            EffectView::Store { then, .. } => then is IssuanceStored,
            _ => false,
        }
    }
}

/// The event in which the response to an effect comes in: none where the
/// response is not of the kind that the effect asks for.
pub open spec fn resumed(effect: EffectView, response: ResponseView) -> Option<EventView> {
    match (effect, response) {
        (EffectView::Store { then, .. }, ResponseView::Store(result)) => Some(
            match then {
                StoreThenView::CredentialsLoaded => EventView::CredentialsLoaded(
                    result.unwrap_list(),
                ),
                StoreThenView::CredentialStored => EventView::CredentialStored(result.unwrap_save()),
                StoreThenView::CredentialDeleted => EventView::CredentialDeleted(
                    result.unwrap_delete(),
                ),
                StoreThenView::IssuanceStored { config_id } => EventView::IssuanceStored(
                    match result.unwrap_save() {
                        Ok(()) => Ok(config_id),
                        Err(error) => Err(error),
                    },
                ),
            },
        ),
        (EffectView::Metadata { .. }, ResponseView::Issuer(result)) => Some(
            EventView::IssuanceIssuer(result),
        ),
        (EffectView::Image { request }, ResponseView::Image(result)) => {
            let fetched = match result {
                Ok(image) => Ok((request.config_id, image)),
                Err(error) => Err(error),
            };
            Some(
                match request.kind {
                    ImageKind::Logo => EventView::IssuanceLogo(fetched),
                    ImageKind::Background => EventView::IssuanceBackground(fetched),
                },
            )
        },
        (EffectView::Token { .. }, ResponseView::Token(result)) => Some(
            EventView::IssuanceToken(result),
        ),
        (EffectView::Proof { .. }, ResponseView::Proof(result)) => Some(
            EventView::IssuanceProof(result),
        ),
        (EffectView::Credential { config_id, .. }, ResponseView::Credential(result)) => Some(
            EventView::IssuanceCredential(
                match result {
                    Ok(issued) => Ok((config_id, issued)),
                    Err(error) => Err(error),
                },
            ),
        ),
        (EffectView::Credential { config_id, .. }, ResponseView::Deferred(result)) => Some(
            EventView::IssuanceDeferred(
                match result {
                    Ok(transaction) => Ok((config_id, transaction)),
                    Err(error) => Err(error),
                },
            ),
        ),
        _ => None,
    }
}

/// The value of an optional event.
pub open spec fn optional_event_view(event: Option<Event>) -> Option<EventView> {
    match event {
        Some(e) => Some(e@),
        None => None,
    }
}

/// The event in which the response to an effect comes in.
pub fn resume(effect: Effect, response: Response) -> (event: Option<Event>)
    ensures
        optional_event_view(event) == resumed(effect@, response@),
{
    match (effect, response) {
        (Effect::Store { then, .. }, Response::Store(result)) => Some(
            match then {
                StoreThen::CredentialsLoaded => Event::CredentialsLoaded(result.unwrap_list()),
                StoreThen::CredentialStored => Event::CredentialStored(result.unwrap_save()),
                StoreThen::CredentialDeleted => Event::CredentialDeleted(result.unwrap_delete()),
                StoreThen::IssuanceStored { config_id } => Event::IssuanceStored(
                    match result.unwrap_save() {
                        Ok(()) => Ok(config_id),
                        Err(error) => Err(error),
                    },
                ),
            },
        ),
        (Effect::Metadata { .. }, Response::Issuer(result)) => Some(Event::IssuanceIssuer(result)),
        (Effect::Image { request }, Response::Image(result)) => {
            let fetched = match result {
                Ok(image) => Ok((request.config_id, image)),
                Err(error) => Err(error),
            };
            Some(
                match request.kind {
                    ImageKind::Logo => Event::IssuanceLogo(fetched),
                    ImageKind::Background => Event::IssuanceBackground(fetched),
                },
            )
        },
        (Effect::Token { .. }, Response::Token(result)) => Some(Event::IssuanceToken(result)),
        (Effect::Proof { .. }, Response::Proof(result)) => Some(Event::IssuanceProof(result)),
        (Effect::Credential { config_id, .. }, Response::Credential(result)) => Some(
            Event::IssuanceCredential(
                match result {
                    Ok(issued) => Ok((config_id, issued)),
                    Err(error) => Err(error),
                },
            ),
        ),
        (Effect::Credential { config_id, .. }, Response::Deferred(result)) => Some(
            Event::IssuanceDeferred(
                match result {
                    Ok(transaction) => Ok((config_id, transaction)),
                    Err(error) => Err(error),
                },
            ),
        ),
        _ => None,
    }
}

/// A request whose answer is awaited: the effect, and, where the effect
/// belongs to an issuance, the identifier of that issuance.
#[derive(Clone, Debug, PartialEq, Eq)]
pub struct Pending {
    pub flow: Option<String>,
    pub effect: Effect,
}

/// The mathematical value of a [`Pending`].
pub ghost struct PendingView {
    pub flow: Option<Seq<char>>,
    pub effect: EffectView,
}

impl View for Pending {
    type V = PendingView;

    open spec fn view(&self) -> PendingView {
        PendingView { flow: optional_string_view(self.flow), effect: self.effect@ }
    }
}

impl PendingView {
    /// The request for `effect`, made while the issuance `flow` is in
    /// progress. Only an effect that belongs to an issuance keeps the
    /// identifier.
    pub open spec fn of(effect: EffectView, flow: Option<Seq<char>>) -> PendingView {
        PendingView {
            flow: if effect.bound_to_flow() {
                flow
            } else {
                None
            },
            effect,
        }
    }

    /// Whether the answer comes too late: the request was made for an
    /// issuance that is no longer the one in progress.
    pub open spec fn stale(self, model: ModelView) -> bool {
        self.flow is Some && self.flow != model.issuance_id()
    }
}

/// The requests that are open: under each identifier the request whose
/// answer is awaited, or nothing.
pub type Open = Seq<Option<PendingView>>;

/// The first identifier under which nothing is open: the length of `open`
/// where every identifier is taken.
pub open spec fn first_free(open: Open) -> int
    decreases open.len(),
{
    if open.len() == 0 {
        0
    } else if open[0] is None {
        0
    } else {
        1 + first_free(open.skip(1))
    }
}

/// The first free identifier is free, and no identifier before it is.
pub proof fn lemma_first_free(open: Open)
    ensures
        0 <= first_free(open) <= open.len(),
        first_free(open) < open.len() ==> open[first_free(open)] is None,
        forall|k: int| 0 <= k < first_free(open) ==> (#[trigger] open[k]) is Some,
    decreases open.len(),
{
    if open.len() > 0 && open[0] is Some {
        let rest = open.skip(1);
        lemma_first_free(rest);
        assert forall|k: int| 0 <= k < first_free(open) implies (#[trigger] open[k]) is Some by {
            if k > 0 {
                assert(rest[k - 1] == open[k]);
            }
        }
        if first_free(open) < open.len() {
            assert(rest[first_free(rest)] == open[first_free(open)]);
        }
    }
}

/// The open requests once `request` has been opened under the first free
/// identifier.
pub open spec fn opened(open: Open, request: PendingView) -> Open {
    let id = first_free(open);
    if id < open.len() {
        open.update(id, Some(request))
    } else {
        open.push(Some(request))
    }
}

/// The open requests once the first `n` effects have been handed out,
/// while the issuance `flow` is in progress.
pub open spec fn dispatched_open(
    open: Open,
    effects: Seq<EffectView>,
    flow: Option<Seq<char>>,
    n: int,
) -> Open
    decreases n,
{
    if n <= 0 {
        open
    } else {
        let before = dispatched_open(open, effects, flow, n - 1);
        if effects[n - 1].answered() {
            opened(before, PendingView::of(effects[n - 1], flow))
        } else {
            before
        }
    }
}

/// The requests for the first `n` effects, in their order. An effect that
/// has an answer is opened under the first identifier that is free when
/// its turn comes; one that has none goes out without an identifier.
pub open spec fn dispatched(
    open: Open,
    effects: Seq<EffectView>,
    flow: Option<Seq<char>>,
    n: int,
) -> Seq<RequestView>
    decreases n,
{
    if n <= 0 {
        Seq::empty()
    } else {
        let before = dispatched_open(open, effects, flow, n - 1);
        dispatched(open, effects, flow, n - 1).push(
            RequestView {
                id: if effects[n - 1].answered() {
                    Some(first_free(before))
                } else {
                    None
                },
                effect: effects[n - 1],
            },
        )
    }
}

/// The bridge: the model, and the requests whose answers are awaited.
pub struct Bridge {
    pub app: App,
    pub model: Model,
    /// The open requests, each at the place of its identifier.
    pub open: Vec<Option<Pending>>,
}

/// The mathematical value of a [`Bridge`].
pub ghost struct BridgeView {
    pub model: ModelView,
    pub open: Open,
}

impl View for Bridge {
    type V = BridgeView;

    open spec fn view(&self) -> BridgeView {
        BridgeView {
            model: self.model@,
            open: Seq::new(
                self.open@.len(),
                |i: int|
                    match self.open@[i] {
                        Some(request) => Some(request@),
                        None => None,
                    },
            ),
        }
    }
}

impl BridgeView {
    /// Whether a request is open under `id`.
    pub open spec fn awaits(self, id: int) -> bool {
        0 <= id < self.open.len() && self.open[id] is Some
    }

    /// The bridge once an event has been handled: the model is updated,
    /// and the effects of the update are handed out.
    pub open spec fn after_event(self, event: EventView) -> (BridgeView, Seq<RequestView>) {
        let (model, effects) = update_spec(self.model, event);
        let flow = model.issuance_id();
        (
            BridgeView {
                model,
                open: dispatched_open(self.open, effects, flow, effects.len() as int),
            },
            dispatched(self.open, effects, flow, effects.len() as int),
        )
    }

    /// The bridge with the request under `id` closed.
    pub open spec fn closed(self, id: int) -> BridgeView {
        BridgeView { open: self.open.update(id, None), ..self }
    }

    /// What the response to a request under `id` gives: the bridge after
    /// it, and the requests that go out or the error. Where nothing is open
    /// under `id` the response is refused and nothing changes. Else the
    /// request is closed. A stale response changes nothing more and asks
    /// nothing of the shell; a response of the wrong kind is refused; any
    /// other response comes in as the event that the request names.
    pub open spec fn after_response(self, id: int, response: ResponseView) -> (
        BridgeView,
        Result<Seq<RequestView>, BridgeError>,
    ) {
        if !self.awaits(id) {
            (self, Err(BridgeError::UnknownRequest))
        } else {
            let request = self.open[id]->Some_0;
            if request.stale(self.model) {
                (self.closed(id), Ok(Seq::empty()))
            } else {
                match resumed(request.effect, response) {
                    Some(event) => {
                        let (after, requests) = self.closed(id).after_event(event);
                        (after, Ok(requests))
                    },
                    None => (self.closed(id), Err(BridgeError::UnexpectedResponse)),
                }
            }
        }
    }
}

/// The value of the outcome of a response.
pub open spec fn requests_result_view(outcome: Result<Vec<Request>, BridgeError>) -> Result<
    Seq<RequestView>,
    BridgeError,
> {
    match outcome {
        Ok(requests) => Ok(requests_view(requests@)),
        Err(error) => Err(error),
    }
}

impl Bridge {
    /// A bridge to a wallet that has just started: nothing is open.
    pub fn new() -> (bridge: Bridge)
        ensures
            bridge@.model == ModelView::init(),
            bridge@.open == Seq::<Option<PendingView>>::empty(),
    {
        let bridge = Bridge { app: App, model: Model::new(), open: Vec::new() };
        assert(bridge@.open =~= Seq::empty());
        bridge
    }

    /// Opens a request under the first free identifier.
    fn open_request(&mut self, request: Pending) -> (id: usize)
        ensures
            id == first_free(old(self)@.open),
            final(self)@.open == opened(old(self)@.open, request@),
            final(self)@.model == old(self)@.model,
    {
        let ghost before = self@.open;
        proof {
            lemma_first_free(before);
            assert(before.skip(0) =~= before);
        }
        let mut i: usize = 0;
        while i < self.open.len()
            invariant
                i <= self.open.len(),
                self@.open == before,
                before == old(self)@.open,
                self@.model == old(self)@.model,
                first_free(before) == i + first_free(before.skip(i as int)),
            decreases self.open.len() - i,
        {
            assert(before.skip(i as int)[0] == before[i as int]);
            assert(before[i as int] is None <==> self.open@[i as int] is None);
            if self.open[i].is_none() {
                assert(first_free(before.skip(i as int)) == 0);
                self.open[i] = Some(request);
                assert(self@.open =~= before.update(i as int, Some(request@)));
                return i;
            }
            assert(before.skip(i as int).skip(1) =~= before.skip(i as int + 1));
            i += 1;
        }
        assert(first_free(before.skip(i as int)) == 0);
        self.open.push(Some(request));
        assert(self@.open =~= before.push(Some(request@)));
        i
    }

    /// Hands out the effects of an update.
    fn dispatch(&mut self, effects: Vec<Effect>) -> (requests: Vec<Request>)
        ensures
            final(self)@.model == old(self)@.model,
            final(self)@.open == dispatched_open(
                old(self)@.open,
                effects_view(effects@),
                old(self)@.model.issuance_id(),
                effects.len() as int,
            ),
            requests_view(requests@) == dispatched(
                old(self)@.open,
                effects_view(effects@),
                old(self)@.model.issuance_id(),
                effects.len() as int,
            ),
    {
        let ghost all = effects_view(effects@);
        let ghost start = self@.open;
        let flow = self.model.issuance_id();
        let mut requests: Vec<Request> = Vec::new();
        let mut i: usize = 0;
        assert(requests_view(requests@) =~= dispatched(start, all, optional_string_view(flow), 0));
        while i < effects.len()
            invariant
                i <= effects.len(),
                all == effects_view(effects@),
                optional_string_view(flow) == old(self)@.model.issuance_id(),
                self@.model == old(self)@.model,
                self@.open == dispatched_open(start, all, optional_string_view(flow), i as int),
                requests_view(requests@) == dispatched(
                    start,
                    all,
                    optional_string_view(flow),
                    i as int,
                ),
            decreases effects.len() - i,
        {
            let ghost before = requests_view(requests@);
            let effect = effects[i].duplicate();
            assert(all[i as int] == effect@);
            let answered = match &effect {
                Effect::Render => false,
                Effect::Purge { .. } => false,
                _ => true,
            };
            let id = if answered {
                let bound = match &effect {
                    Effect::Image { .. } => true,
                    Effect::Token { .. } => true,
                    Effect::Proof { .. } => true,
                    Effect::Credential { .. } => true,
                    Effect::Store { then: StoreThen::IssuanceStored { .. }, .. } => true,
                    _ => false,
                };
                let request = Pending {
                    flow: if bound {
                        flow.clone()
                    } else {
                        None
                    },
                    effect: effect.duplicate(),
                };
                Some(self.open_request(request))
            } else {
                None
            };
            let request = Request { id, effect };
            requests.push(request);
            assert(requests_view(requests@) =~= before.push(request@));
            i += 1;
        }
        requests
    }

    /// Handles an event from the shell: updates the model, and hands out
    /// the requests for the effects of the update, in their order. Each
    /// request that has an answer is open from now on, under an identifier
    /// of its own.
    pub fn process_event(&mut self, event: Event) -> (requests: Vec<Request>)
        ensures
            (final(self)@, requests_view(requests@)) == old(self)@.after_event(event@),
            old(self)@.model.wf() ==> final(self)@.model.wf(),
    {
        let effects = self.app.update(event, &mut self.model);
        assert(self@.open =~= old(self)@.open);
        self.dispatch(effects)
    }

    /// Takes in the response to the request under `id`. The request is
    /// closed, and the response comes in as the event that the request
    /// names. A response under an identifier under which nothing is open is
    /// refused and changes nothing; so a request gets one response and no
    /// more. A response of the wrong kind is refused too. A response to a
    /// request of an issuance that is no longer in progress is dropped: it
    /// changes nothing, and nothing is asked of the shell.
    pub fn handle_response(&mut self, id: usize, response: Response) -> (requests: Result<
        Vec<Request>,
        BridgeError,
    >)
        ensures
            (final(self)@, requests_result_view(requests)) == old(self)@.after_response(
                id as int,
                response@,
            ),
            old(self)@.model.wf() ==> final(self)@.model.wf(),
    {
        if id >= self.open.len() {
            return Err(BridgeError::UnknownRequest);
        }
        let request = match self.open[id].take() {
            Some(request) => request,
            None => {
                assert(self@.open =~= old(self)@.open);
                return Err(BridgeError::UnknownRequest);
            },
        };
        assert(self@.open =~= old(self)@.closed(id as int).open);
        assert(request@ == old(self)@.open[id as int]->Some_0);
        let current = self.model.issuance_id();
        let stale = match (&request.flow, &current) {
            (Some(flow), Some(now)) => !(*flow == *now),
            (Some(_), None) => true,
            (None, _) => false,
        };
        if stale {
            let requests: Vec<Request> = Vec::new();
            assert(requests_view(requests@) =~= Seq::empty());
            return Ok(requests);
        }
        match resume(request.effect, response) {
            Some(event) => Ok(self.process_event(event)),
            None => Err(BridgeError::UnexpectedResponse),
        }
    }

    /// What the shell shows of the wallet.
    pub fn shown(&self) -> (shown: ViewModel)
        ensures
            shown@ == Shown::of_model(self@.model, None),
    {
        self.app.view(&self.model)
    }
}

/// Opening a request takes a free identifier and leaves what is open as it
/// is.
pub proof fn lemma_opened(open: Open, request: PendingView)
    ensures
        ({
            let id = first_free(open);
            let after = opened(open, request);
            &&& 0 <= id < after.len()
            &&& !(id < open.len() && open[id] is Some)
            &&& after[id] == Some(request)
            &&& after.len() >= open.len()
            &&& forall|k: int| 0 <= k < after.len() && k != id ==> k < open.len() && #[trigger] after[k] == open[k]
        }),
{
    lemma_first_free(open);
}

/// Whether `request` went out under an identifier that was free in
/// `before` and under which its effect is open in `after`.
pub open spec fn opened_afresh(before: Open, after: Open, request: RequestView) -> bool {
    match request.id {
        Some(id) => {
            &&& 0 <= id < after.len()
            &&& after[id] matches Some(pending)
            &&& pending.effect == request.effect
            &&& !(id < before.len() && before[id] is Some)
        },
        None => false,
    }
}

/// The requests that an update hands out are kept apart. Each effect goes
/// out in its place. One that has an answer goes out under an identifier
/// that was free, that no other request of the update has, and under
/// which it is open afterwards; one that has none goes out without an
/// identifier. What was open stays open.
pub proof fn law_requests_are_kept_apart(
    open: Open,
    effects: Seq<EffectView>,
    flow: Option<Seq<char>>,
    n: int,
)
    requires
        0 <= n <= effects.len(),
    ensures
        ({
            let requests = dispatched(open, effects, flow, n);
            let after = dispatched_open(open, effects, flow, n);
            &&& requests.len() == n
            &&& after.len() >= open.len()
            &&& forall|k: int| 0 <= k < open.len() && (#[trigger] open[k]) is Some ==> after[k] == open[k]
            &&& forall|k: int| 0 <= k < n ==> (#[trigger] requests[k]).effect == effects[k]
            &&& forall|k: int| 0 <= k < n && !effects[k].answered() ==> (#[trigger] requests[k]).id is None
            &&& forall|k: int|
                0 <= k < n && effects[k].answered() ==> opened_afresh(
                    open,
                    after,
                    #[trigger] requests[k],
                )
            &&& forall|k: int, l: int|
                0 <= k < l < n && effects[k].answered() && effects[l].answered() ==> (
                #[trigger] requests[k]).id != (#[trigger] requests[l]).id
        }),
    decreases n,
{
    if n > 0 {
        law_requests_are_kept_apart(open, effects, flow, n - 1);
        let before = dispatched_open(open, effects, flow, n - 1);
        let front = dispatched(open, effects, flow, n - 1);
        let requests = dispatched(open, effects, flow, n);
        let after = dispatched_open(open, effects, flow, n);
        if effects[n - 1].answered() {
            lemma_opened(before, PendingView::of(effects[n - 1], flow));
            let id = first_free(before);
            assert forall|k: int| 0 <= k < n && effects[k].answered() implies opened_afresh(
                open,
                after,
                #[trigger] requests[k],
            ) by {
                if k < n - 1 {
                    assert(requests[k] == front[k]);
                    assert(opened_afresh(open, before, front[k]));
                    let i = front[k].id->Some_0;
                    assert(before[i] is Some);
                    assert(i != id);
                } else {
                    if id < open.len() {
                        assert(before[id] is None);
                    }
                }
            }
            assert forall|k: int, l: int|
                0 <= k < l < n && effects[k].answered() && effects[l].answered() implies (
            #[trigger] requests[k]).id != (#[trigger] requests[l]).id by {
                assert(requests[k] == front[k]);
                assert(opened_afresh(open, before, front[k]));
                if l < n - 1 {
                    assert(requests[l] == front[l]);
                } else {
                    let i = front[k].id->Some_0;
                    assert(before[i] is Some);
                }
            }
            assert forall|k: int| 0 <= k < open.len() && (#[trigger] open[k]) is Some implies after[k]
                == open[k] by {
                assert(before[k] == open[k]);
            }
        } else {
            assert forall|k: int| 0 <= k < n && effects[k].answered() implies opened_afresh(
                open,
                after,
                #[trigger] requests[k],
            ) by {
                assert(requests[k] == front[k]);
                assert(opened_afresh(open, before, front[k]));
            }
            assert forall|k: int, l: int|
                0 <= k < l < n && effects[k].answered() && effects[l].answered() implies (
            #[trigger] requests[k]).id != (#[trigger] requests[l]).id by {
                assert(requests[k] == front[k]);
                assert(requests[l] == front[l]);
            }
        }
        assert forall|k: int| 0 <= k < n implies (#[trigger] requests[k]).effect == effects[k] by {
            if k < n - 1 {
                assert(requests[k] == front[k]);
            }
        }
        assert forall|k: int| 0 <= k < n && !effects[k].answered() implies (
        #[trigger] requests[k]).id is None by {
            if k < n - 1 {
                assert(requests[k] == front[k]);
            }
        }
    }
}

/// A response that comes too late changes nothing but that its request is
/// closed: the model stays as it is and nothing is asked of the shell.
pub proof fn law_stale_response_is_dropped(bridge: BridgeView, id: int, response: ResponseView)
    requires
        bridge.awaits(id),
        bridge.open[id]->Some_0.stale(bridge.model),
    ensures
        ({
            let (after, outcome) = bridge.after_response(id, response);
            &&& after.model == bridge.model
            &&& after.open == bridge.open.update(id, None)
            &&& outcome == Ok::<_, BridgeError>(Seq::<RequestView>::empty())
        }),
{
}

/// A request that has been closed is open no more: a second response
/// under its identifier finds nothing, unless the identifier has been
/// given to a new request since.
pub proof fn law_closed_is_not_awaited(bridge: BridgeView, id: int)
    requires
        bridge.awaits(id),
    ensures
        !bridge.closed(id).awaits(id),
        bridge.closed(id).model == bridge.model,
        forall|k: int| k != id ==> bridge.closed(id).awaits(k) == bridge.awaits(k),
{
}

} // verus!
