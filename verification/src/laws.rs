//! What holds of the wallet whatever comes in, stated over the models of
//! its state and proved.

use crate::app::{
    resolves, step_spec, update_spec, Aspect, EffectView, EventView, ResolvedView, StoreThenView,
};
use crate::capabilities::memory::{lemma_saved_is_listed, respond, RecordView};
use crate::capabilities::store::{
    Catalog, StoreOperationView, StoreResponseView, StoreResultView,
};
use crate::holder::credential::{credential_of_bytes, CredentialView, ImageDataView};
use crate::holder::metadata::IssuedCredentialView;
use crate::holder::offer::{
    offer_decoded, offer_of_json, TxCodeView,
};
use crate::json::JsonView;
use crate::model::issuance::{
    image_requests_at, image_requests_of, offered_changed, offered_get, ChangeView, ImageKind,
    IssuanceErrorView, IssuanceStateView, Offered, OfferedCredentialView,
};
use crate::model::credential::{credentials_of, credentials_read, lemma_reading_stops};
use crate::model::ModelView;
use crate::provider::loaded;
use vstd::prelude::*;

verus! {

/// An encoded offer with a pre-authorized code grant starts an issuance in
/// `Offered`, with that grant; an offer without one is refused as an
/// unsupported grant; and a text that is no offer is refused with the
/// error of the step at which reading it fails.
pub proof fn law_offer_starts_issuance(encoded: Seq<char>)
    ensures
        match offer_decoded(encoded) {
            Ok(offer) => match offer.pre_authorized_code() {
                Some(grant) => IssuanceStateView::from_decoded(offer_decoded(encoded)) == Ok::<
                    _,
                    IssuanceErrorView,
                >(IssuanceStateView::Offered { offer, grant }),
                None => IssuanceStateView::from_decoded(offer_decoded(encoded)) == Err::<
                    IssuanceStateView,
                    _,
                >(IssuanceErrorView::UnsupportedGrant),
            },
            Err(error) => IssuanceStateView::from_decoded(offer_decoded(encoded)) == Err::<
                IssuanceStateView,
                _,
            >(IssuanceErrorView::of_decode(error)),
        },
{
}

/// The code of the grant that an offer is read with is the code that the
/// JSON of the offer holds: the text under `pre-authorized_code` in the
/// object under `pre-authorized_code` in the object under `grants`.
pub proof fn law_offer_keeps_code(json: JsonView)
    ensures
        offer_of_json(json) matches Some(offer) ==> (offer.pre_authorized_code() matches Some(
            grant,
        ) ==> json.field("grants"@) matches Some(grants) && grants.field(
            "pre-authorized_code"@,
        ) matches Some(inner) && inner.text_field("pre-authorized_code"@) == Some(
            grant.pre_authorized_code,
        )),
{
}

/// A logo and a background image for a credential may come in in either
/// order: what is kept of the credential is the same.
pub proof fn law_images_commute_for_credential(
    offered: OfferedCredentialView,
    logo: ImageDataView,
    background: ImageDataView,
)
    ensures
        offered.with_logo(logo).with_background(background) == offered.with_background(
            background,
        ).with_logo(logo),
{
}

/// A logo and a background image may come in in either order, for the
/// same credential or for two: the credentials on offer end up the same.
pub proof fn law_images_commute_offered(
    offered: Offered,
    logo_id: Seq<char>,
    logo: ImageDataView,
    background_id: Seq<char>,
    background: ImageDataView,
)
    ensures
        offered_changed(
            offered_changed(offered, logo_id, ChangeView::Logo(logo)),
            background_id,
            ChangeView::Background(background),
        ) == offered_changed(
            offered_changed(offered, background_id, ChangeView::Background(background)),
            logo_id,
            ChangeView::Logo(logo),
        ),
{
    let first = offered_changed(
        offered_changed(offered, logo_id, ChangeView::Logo(logo)),
        background_id,
        ChangeView::Background(background),
    );
    let second = offered_changed(
        offered_changed(offered, background_id, ChangeView::Background(background)),
        logo_id,
        ChangeView::Logo(logo),
    );
    assert(first =~= second);
}

/// The events in which a logo and a background image come in may be
/// handled in either order: the model ends up the same.
pub proof fn law_images_commute(
    model: ModelView,
    logo_id: Seq<char>,
    logo: ImageDataView,
    background_id: Seq<char>,
    background: ImageDataView,
)
    ensures
        ({
            let logo_event = EventView::IssuanceLogo(Ok((logo_id, logo)));
            let background_event = EventView::IssuanceBackground(Ok((background_id, background)));
            step_spec(
                step_spec(model, logo_event, ResolvedView::Nothing).0,
                background_event,
                ResolvedView::Nothing,
            ).0 == step_spec(
                step_spec(model, background_event, ResolvedView::Nothing).0,
                logo_event,
                ResolvedView::Nothing,
            ).0
        }),
{
    match model.issuance {
        Some(state) => match state.offered() {
            Some(offered) => {
                law_images_commute_offered(offered, logo_id, logo, background_id, background);
            },
            None => {},
        },
        None => {},
    }
}

/// Every image that is asked for is one that its credential still needs.
pub proof fn law_requests_are_needed(offered: Offered, n: int, k: int)
    requires
        0 <= n <= offered.len(),
        0 <= k < image_requests_of(offered, n).len(),
    ensures
        ({
            let request = image_requests_of(offered, n)[k];
            exists|i: int|
                0 <= i < n && (#[trigger] offered[i]).0 == request.config_id && match request.kind {
                    ImageKind::Logo => offered[i].1.needs_logo(),
                    ImageKind::Background => offered[i].1.needs_background(),
                }
        }),
    decreases n,
{
    let front = image_requests_of(offered, n - 1);
    if k < front.len() {
        law_requests_are_needed(offered, n - 1, k);
    } else {
        let last = image_requests_at(offered, n - 1);
        assert(image_requests_of(offered, n)[k] == last[k - front.len()]);
        assert(offered[n - 1].0 == last[k - front.len()].config_id);
    }
}

/// Once an image of a credential has come in it stays, whatever comes in
/// after it, for this credential or for another; and a credential that
/// has an image does not need it. With [`law_requests_are_needed`], an
/// image that has come in is not asked for again.
pub proof fn law_no_refetch(offered: Offered, id: Seq<char>, change: ChangeView, at: int)
    requires
        0 <= at < offered.len(),
    ensures
        ({
            let before = offered[at].1;
            let after = offered_changed(offered, id, change)[at].1;
            &&& before.logo is Some ==> after.logo == before.logo && !after.needs_logo()
            &&& before.background is Some ==> after.background == before.background
                && !after.needs_background()
            &&& change is Logo && offered[at].0 == id ==> !after.needs_logo()
            &&& change is Background && offered[at].0 == id ==> !after.needs_background()
        }),
{
}

/// A credential that has been saved is listed: the entries of the catalog
/// of credentials hold the bytes that were saved, which are the JSON text
/// of the credential; and reading the JSON form of a credential gives the
/// credential back.
pub proof fn law_saved_credential_is_listed(records: Seq<RecordView>, credential: CredentialView)
    ensures
        ({
            let catalog = Catalog::Credential.name();
            let save = StoreOperationView::Save {
                catalog,
                id: credential.id,
                data: credential.bytes(),
            };
            let after = respond(records, save).0;
            let answer = respond(after, StoreOperationView::List { catalog }).1;
            &&& answer matches StoreResultView::Success {
                response: StoreResponseView::List { entries },
            } && entries.contains(Some(credential.to_json().printed()))
            &&& CredentialView::from_json(credential.to_json()) == Some(credential)
        }),
{
    lemma_saved_is_listed(
        records,
        Catalog::Credential.name(),
        credential.id,
        credential.bytes(),
    );
    credential.lemma_round_trip();
}

/// Whether the JSON text of a credential reads as the credential. What
/// the JSON printer writes and what the JSON parser makes of it is not
/// proved here: this holds of a credential where the two agree on its
/// text.
pub open spec fn reads_back(credential: CredentialView) -> bool {
    credential_of_bytes(credential.bytes()) == Some(credential)
}

/// Whether an entry of the store holds data that reads as `credential`.
pub open spec fn holds_credential(entry: Option<Seq<u8>>, credential: CredentialView) -> bool {
    match entry {
        Some(bytes) => credential_of_bytes(bytes) == Some(credential),
        None => false,
    }
}

/// Whether an entry of the store holds nothing, or a credential with
/// another identifier than `id`.
pub open spec fn holds_another(entry: Option<Seq<u8>>, id: Seq<char>) -> bool {
    match entry {
        Some(bytes) => match credential_of_bytes(bytes) {
            Some(other) => other.id != id,
            None => false,
        },
        None => true,
    }
}

/// A credential that has been saved is read from what the store lists:
/// where the JSON text of the credential reads as the credential, the
/// entries of the catalog of credentials hold one whose data reads as the
/// credential.
pub proof fn law_saved_credential_is_read(records: Seq<RecordView>, credential: CredentialView)
    requires
        reads_back(credential),
    ensures
        ({
            let catalog = Catalog::Credential.name();
            let save = StoreOperationView::Save {
                catalog,
                id: credential.id,
                data: credential.bytes(),
            };
            let after = respond(records, save).0;
            let answer = respond(after, StoreOperationView::List { catalog }).1;
            answer matches StoreResultView::Success {
                response: StoreResponseView::List { entries },
            } && exists|at: int|
                0 <= at < entries.len() && holds_credential(#[trigger] entries[at], credential)
        }),
{
    lemma_saved_is_listed(
        records,
        Catalog::Credential.name(),
        credential.id,
        credential.bytes(),
    );
}

/// A credential that the store lists is among the credentials read from
/// the entries: where the JSON text of the credential reads as the
/// credential and every one of the first `n` entries can be read, the
/// credentials read from them hold the credential of each entry among
/// them that holds its text.
pub proof fn law_listed_credential_is_found(
    entries: Seq<Option<Seq<u8>>>,
    n: int,
    credential: CredentialView,
    at: int,
)
    requires
        reads_back(credential),
        0 <= at < n <= entries.len(),
        entries[at] == Some(credential.bytes()),
        credentials_of(entries, n) is Some,
    ensures
        credentials_of(entries, n) matches Some(credentials) && credentials.contains(credential),
    decreases n,
{
    let front = credentials_read(entries, n - 1);
    if !front.1 {
        lemma_reading_stops(entries, n - 1, n);
    }
    let credentials = credentials_read(entries, n).0;
    if at == n - 1 {
        assert(credentials == front.0.push(credential));
        assert(credentials[credentials.len() - 1] == credential);
    } else {
        law_listed_credential_is_found(entries, n - 1, credential, at);
        let k = choose|k: int| 0 <= k < front.0.len() && front.0[k] == credential;
        assert(credentials[k] == credential);
    }
}

/// A credential that the store lists is loaded by its identifier: where
/// the JSON text of the credential reads as the credential, and the
/// entries before the one that holds its text hold credentials with other
/// identifiers, loading by the identifier gives the credential.
pub proof fn law_listed_credential_is_loaded(
    entries: Seq<Option<Seq<u8>>>,
    credential: CredentialView,
    at: int,
)
    requires
        reads_back(credential),
        0 <= at < entries.len(),
        entries[at] == Some(credential.bytes()),
        forall|k: int| 0 <= k < at ==> holds_another(#[trigger] entries[k], credential.id),
    ensures
        loaded(entries, credential.id) == Ok::<_, ()>(Some(credential)),
    decreases at,
{
    if at > 0 {
        let rest = entries.skip(1);
        assert(rest[at - 1] == entries[at]);
        assert forall|k: int| 0 <= k < at - 1 implies holds_another(
            #[trigger] rest[k],
            credential.id,
        ) by {
            assert(rest[k] == entries[k + 1]);
        }
        law_listed_credential_is_loaded(rest, credential, at - 1);
        assert(holds_another(entries[0], credential.id));
    }
}

/// A PIN whose length is not the one that the issuer asks for is not
/// accepted, whatever its characters.
pub proof fn law_wrong_length_is_not_accepted(tx_code: TxCodeView, pin: Seq<char>)
    requires
        ({
            &&& tx_code.length matches Some(length)
            &&& pin.len() != length
        }),
    ensures
        !tx_code.accepts(pin),
{
}

/// A PIN that the issuer's specification does not accept, be it for its
/// length or for its characters, is refused: the error is shown, the
/// issuance stays as it is, and nothing is asked of the issuer.
pub proof fn law_wrong_pin_is_refused(model: ModelView, pin: Seq<char>, outside: ResolvedView)
    requires
        ({
            &&& model.pin_asked() matches Some(tx_code)
            &&& !tx_code.accepts(pin)
        }),
    ensures
        ({
            let (after, effects) = step_spec(model, EventView::IssuancePin(pin), outside);
            &&& after == model.with_error(IssuanceErrorView::InvalidPin.text())
            &&& after.issuance == model.issuance
            &&& effects == seq![EffectView::Render]
        }),
{
}

/// An accepted offer whose grant asks for a PIN makes no token request
/// until the holder has entered one.
pub proof fn law_no_token_without_pin(model: ModelView, outside: ResolvedView)
    requires
        model.pin_asked() is Some,
        model.pin_held() is None,
    ensures
        ({
            let (after, effects) = step_spec(model, EventView::IssuanceAccepted, outside);
            &&& after.issuance matches Some(state) && state is Accepted
            &&& effects == seq![EffectView::Render]
        }),
{
    let (after, effects) = step_spec(model, EventView::IssuanceAccepted, outside);
    assert(effects =~= seq![EffectView::Render]);
}

/// Giving an issuance up, from whatever state, leaves none in progress
/// and shows the list of credentials.
pub proof fn law_cancel_clears(model: ModelView, outside: ResolvedView)
    ensures
        ({
            let after = step_spec(model, EventView::CancelIssuance, outside).0;
            &&& after.issuance is None
            &&& after.inactive()
            &&& after.active_view == Aspect::CredentialList
            &&& after.credential == model.credential
        }),
{
}

/// An event moves an issuance one state forward, leaves it in its state,
/// or ends it. No state is entered but from the one before it.
pub proof fn law_moves_forward(model: ModelView, event: EventView, outside: ResolvedView)
    ensures
        ({
            let before = match model.issuance {
                Some(state) => state.rank(),
                None => 0,
            };
            let after = match step_spec(model, event, outside).0.issuance {
                Some(state) => state.rank(),
                None => 0,
            };
            after == before || after == before + 1 || after == 0 || (event is IssuanceOffer
                && after == 1)
        }),
{
}

/// What is kept for a credential after a change is what was kept for it
/// before, changed.
pub proof fn lemma_get_changed(entries: Offered, id: Seq<char>, change: ChangeView)
    ensures
        offered_get(offered_changed(entries, id, change), id) == match offered_get(entries, id) {
            Some(credential) => Some(credential.changed(change)),
            None => None,
        },
    decreases entries.len(),
{
    if entries.len() > 0 {
        lemma_get_changed(entries.skip(1), id, change);
        assert(offered_changed(entries, id, change).skip(1) =~= offered_changed(
            entries.skip(1),
            id,
            change,
        ));
    }
}

/// A credential that the issuance waits for is stored when it comes in:
/// the update asks the store to keep the JSON text of the credential under
/// the identifier of the credential in the catalog of credentials, then to
/// show the model, and asks for nothing else.
pub proof fn law_issued_credential_is_stored(
    model: ModelView,
    id: Seq<char>,
    issued: IssuedCredentialView,
)
    requires
        model.credential(id, issued) is Some,
    ensures
        ({
            let credential = model.credential(id, issued)->Some_0;
            let event = EventView::IssuanceCredential(Ok((id, issued)));
            update_spec(model, event).1 == seq![
                EffectView::Store {
                    operation: StoreOperationView::Save {
                        catalog: Catalog::Credential.name(),
                        id: credential.id,
                        data: credential.bytes(),
                    },
                    then: StoreThenView::IssuanceStored { config_id: id },
                },
                EffectView::Render,
            ]
        }),
{
    let event = EventView::IssuanceCredential(Ok((id, issued)));
    let credential = model.credential(id, issued)->Some_0;
    let expected = seq![
        EffectView::Store {
            operation: StoreOperationView::Save {
                catalog: Catalog::Credential.name(),
                id: credential.id,
                data: credential.bytes(),
            },
            then: StoreThenView::IssuanceStored { config_id: id },
        },
        EffectView::Render,
    ];
    assert(update_spec(model, event).1 =~= expected);
}

/// A credential is taken once: when the credential for a configuration
/// has come in and the request to store it has gone out, the issuance
/// waits for it no longer, and the same credential coming in again
/// changes nothing and stores nothing.
pub proof fn law_credential_is_taken_once(
    model: ModelView,
    id: Seq<char>,
    issued: IssuedCredentialView,
    printed: Seq<u8>,
    again: IssuedCredentialView,
)
    requires
        model.credential(id, issued) is Some,
    ensures
        ({
            let event = EventView::IssuanceCredential(Ok((id, issued)));
            let (after, effects) = step_spec(model, event, ResolvedView::Printed(Ok(printed)));
            let repeated = EventView::IssuanceCredential(Ok((id, again)));
            &&& effects.len() == 2
            &&& effects[0] is Store
            &&& after.credential(id, again) is None
            &&& resolves(after, repeated, ResolvedView::Nothing)
            &&& step_spec(after, repeated, ResolvedView::Nothing) == (after, seq![EffectView::Render])
        }),
{
    let state = model.issuance->Some_0;
    let offered = state.offered()->Some_0;
    lemma_get_changed(offered, id, ChangeView::Received);
}

} // verus!
