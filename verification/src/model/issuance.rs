//! The state of an issuance: from the offer that starts it to the
//! credentials that end it.

use crate::config::{client_id, client_id_text};
use crate::holder::credential::{
    Credential, CredentialDisplay, CredentialView, ImageData, ImageDataView, SubjectClaims,
};
use crate::holder::metadata::{
    CredentialConfiguration, CredentialConfigurationView, IssuedCredential, IssuedCredentialView,
    Issuer, IssuerView, TokenResponse, TokenResponseView,
};
use crate::holder::offer::{
    decoded_view, offer_decoded, CredentialOffer, CredentialOfferView,
    DecodeError, DecodeErrorView, PreAuthorizedCodeGrant, PreAuthorizedCodeGrantView,
};
use crate::holder::request::{
    CredentialRequest, CredentialRequestView, ProofRequest, ProofRequestView, TokenRequest,
    TokenRequestView,
};
use crate::json::{duplicate_strings, optional_string_view, strings_view};
use vstd::prelude::*;
use vstd::string::StringExecFns;

verus! {

/// One credential on offer: its configuration, the images that have been
/// fetched for it, and how far its issuance has come.
#[derive(Clone, Debug, Default, PartialEq, Eq)]
pub struct OfferedCredential {
    /// The configuration of the credential.
    pub config: CredentialConfiguration,
    /// The logo, once it has been fetched.
    pub logo: Option<ImageData>,
    /// The background image, once it has been fetched.
    pub background: Option<ImageData>,
    /// Whether the credential has been received from the issuer.
    pub received: bool,
    /// Whether the credential has been stored.
    pub stored: bool,
    /// Whether the issuer has deferred the credential: it will hand it out
    /// later, and the flow does not wait for it.
    pub deferred: bool,
}

/// The mathematical value of an [`OfferedCredential`].
pub ghost struct OfferedCredentialView {
    pub config: CredentialConfigurationView,
    pub logo: Option<ImageDataView>,
    pub background: Option<ImageDataView>,
    pub received: bool,
    pub stored: bool,
    pub deferred: bool,
}

impl View for OfferedCredential {
    type V = OfferedCredentialView;

    open spec fn view(&self) -> OfferedCredentialView {
        OfferedCredentialView {
            config: self.config@,
            logo: ImageData::optional_view(self.logo),
            background: ImageData::optional_view(self.background),
            received: self.received,
            stored: self.stored,
            deferred: self.deferred,
        }
    }
}

impl OfferedCredentialView {
    /// An offered credential of the given configuration, with nothing
    /// fetched and nothing received.
    pub open spec fn fresh(config: CredentialConfigurationView) -> OfferedCredentialView {
        OfferedCredentialView {
            config,
            logo: None,
            background: None,
            received: false,
            stored: false,
            deferred: false,
        }
    }

    /// Where the logo can be fetched: the address that the first display
    /// record gives for it.
    pub open spec fn logo_uri(self) -> Option<Seq<char>> {
        if self.config.display.len() > 0 {
            match self.config.display[0].logo {
                Some(logo) => logo.uri,
                None => None,
            }
        } else {
            None
        }
    }

    /// Where the background image can be fetched: the address that the
    /// first display record gives for it.
    pub open spec fn background_uri(self) -> Option<Seq<char>> {
        if self.config.display.len() > 0 {
            match self.config.display[0].background_image {
                Some(image) => image.uri,
                None => None,
            }
        } else {
            None
        }
    }

    /// Whether the logo is still to be fetched: there is none yet, and there
    /// is an address to fetch it from.
    pub open spec fn needs_logo(self) -> bool {
        self.logo is None && self.logo_uri() is Some
    }

    /// Whether the background image is still to be fetched.
    pub open spec fn needs_background(self) -> bool {
        self.background is None && self.background_uri() is Some
    }

    /// The credential once a logo has come in. A logo that is there stays.
    pub open spec fn with_logo(self, image: ImageDataView) -> OfferedCredentialView {
        if self.logo is None {
            OfferedCredentialView { logo: Some(image), ..self }
        } else {
            self
        }
    }

    /// The credential once a background image has come in. An image that is
    /// there stays.
    pub open spec fn with_background(self, image: ImageDataView) -> OfferedCredentialView {
        if self.background is None {
            OfferedCredentialView { background: Some(image), ..self }
        } else {
            self
        }
    }

    /// The credential once it has been received.
    pub open spec fn as_received(self) -> OfferedCredentialView {
        OfferedCredentialView { received: true, ..self }
    }

    /// The credential once it has been stored.
    pub open spec fn as_stored(self) -> OfferedCredentialView {
        OfferedCredentialView { stored: true, ..self }
    }

    /// The credential once the issuer has deferred it.
    pub open spec fn as_deferred(self) -> OfferedCredentialView {
        OfferedCredentialView { deferred: true, ..self }
    }

    /// Whether the flow waits for the credential to come in.
    pub open spec fn awaited(self) -> bool {
        !self.received && !self.deferred
    }

    /// Whether the flow has nothing more to do for the credential: it has
    /// been stored, or the issuer has deferred it.
    pub open spec fn settled(self) -> bool {
        self.stored || self.deferred
    }
}

impl OfferedCredential {
    /// An offered credential of the given configuration, with nothing
    /// fetched and nothing received.
    pub fn new(config: CredentialConfiguration) -> (offered: OfferedCredential)
        ensures
            offered@ == OfferedCredentialView::fresh(config@),
    {
        OfferedCredential {
            config,
            logo: None,
            background: None,
            received: false,
            stored: false,
            deferred: false,
        }
    }

    /// A copy of this offered credential.
    pub fn duplicate(&self) -> (copy: OfferedCredential)
        ensures
            copy@ == self@,
    {
        OfferedCredential {
            config: self.config.duplicate(),
            logo: ImageData::optional_duplicate(&self.logo),
            background: ImageData::optional_duplicate(&self.background),
            received: self.received,
            stored: self.stored,
            deferred: self.deferred,
        }
    }

    /// Where the logo can be fetched.
    pub fn logo_uri(&self) -> (uri: Option<&String>)
        ensures
            uri.is_some() == self@.logo_uri().is_some(),
            uri matches Some(u) ==> self@.logo_uri() == Some(u@),
    {
        if self.config.display.len() > 0 {
            match &self.config.display[0].logo {
                Some(logo) => logo.uri.as_ref(),
                None => None,
            }
        } else {
            None
        }
    }

    /// Where the background image can be fetched.
    pub fn background_uri(&self) -> (uri: Option<&String>)
        ensures
            uri.is_some() == self@.background_uri().is_some(),
            uri matches Some(u) ==> self@.background_uri() == Some(u@),
    {
        if self.config.display.len() > 0 {
            match &self.config.display[0].background_image {
                Some(image) => image.uri.as_ref(),
                None => None,
            }
        } else {
            None
        }
    }

    /// Whether the logo is still to be fetched.
    pub fn needs_logo(&self) -> (needed: bool)
        ensures
            needed == self@.needs_logo(),
            self.logo is Some ==> !needed,
    {
        if self.logo.is_some() {
            return false;
        }
        self.logo_uri().is_some()
    }

    /// Whether the background image is still to be fetched.
    pub fn needs_background(&self) -> (needed: bool)
        ensures
            needed == self@.needs_background(),
            self.background is Some ==> !needed,
    {
        if self.background.is_some() {
            return false;
        }
        self.background_uri().is_some()
    }

    /// Takes in the logo that was fetched. A logo that is there stays.
    pub fn set_logo(&mut self, image: ImageData)
        ensures
            final(self)@ == old(self)@.with_logo(image@),
    {
        if self.logo.is_none() {
            self.logo = Some(image);
        }
    }

    /// Takes in the background image that was fetched. An image that is
    /// there stays.
    pub fn set_background(&mut self, image: ImageData)
        ensures
            final(self)@ == old(self)@.with_background(image@),
    {
        if self.background.is_none() {
            self.background = Some(image);
        }
    }
}

/// What can come in for an offered credential.
pub enum Change {
    /// Its logo has been fetched.
    Logo(ImageData),
    /// Its background image has been fetched.
    Background(ImageData),
    /// It has been received from the issuer.
    Received,
    /// It has been stored.
    Stored,
    /// The issuer has deferred it.
    Deferred,
}

/// The mathematical value of a [`Change`].
pub ghost enum ChangeView {
    Logo(ImageDataView),
    Background(ImageDataView),
    Received,
    Stored,
    Deferred,
}

impl View for Change {
    type V = ChangeView;

    open spec fn view(&self) -> ChangeView {
        match self {
            Change::Logo(image) => ChangeView::Logo(image@),
            Change::Background(image) => ChangeView::Background(image@),
            Change::Received => ChangeView::Received,
            Change::Stored => ChangeView::Stored,
            Change::Deferred => ChangeView::Deferred,
        }
    }
}

impl OfferedCredentialView {
    /// The credential once `change` has come in.
    pub open spec fn changed(self, change: ChangeView) -> OfferedCredentialView {
        match change {
            ChangeView::Logo(image) => self.with_logo(image),
            ChangeView::Background(image) => self.with_background(image),
            ChangeView::Received => self.as_received(),
            ChangeView::Stored => self.as_stored(),
            ChangeView::Deferred => self.as_deferred(),
        }
    }
}

impl OfferedCredential {
    /// Takes in what has come in for this credential.
    pub fn change(&mut self, change: &Change)
        ensures
            final(self)@ == old(self)@.changed(change@),
    {
        match change {
            Change::Logo(image) => self.set_logo(image.duplicate()),
            Change::Background(image) => self.set_background(image.duplicate()),
            Change::Received => {
                self.received = true;
            },
            Change::Stored => {
                self.stored = true;
            },
            Change::Deferred => {
                self.deferred = true;
            },
        }
    }
}

/// The credentials on offer in a flow, each under the identifier of its
/// configuration. No identifier occurs twice. The entries stand in the
/// order of the offer; what is kept for a credential does not depend on
/// it.
#[derive(Clone, Debug, Default, PartialEq, Eq)]
pub struct OfferedMap {
    pub entries: Vec<(String, OfferedCredential)>,
}

/// The mathematical value of an [`OfferedMap`]: its entries.
pub type Offered = Seq<(Seq<char>, OfferedCredentialView)>;

impl View for OfferedMap {
    type V = Offered;

    open spec fn view(&self) -> Offered {
        Seq::new(self.entries@.len(), |i: int| (self.entries@[i].0@, self.entries@[i].1@))
    }
}

/// Whether `entries` holds a credential under `id`.
pub open spec fn offered_has(entries: Offered, id: Seq<char>) -> bool {
    exists|i: int| 0 <= i < entries.len() && (#[trigger] entries[i]).0 == id
}

/// The credential that `entries` holds under `id`.
pub open spec fn offered_get(entries: Offered, id: Seq<char>) -> Option<OfferedCredentialView>
    decreases entries.len(),
{
    if entries.len() == 0 {
        None
    } else if entries[0].0 == id {
        Some(entries[0].1)
    } else {
        offered_get(entries.skip(1), id)
    }
}

/// The entries once `change` has come in for the credential under `id`.
/// Where there is no such credential nothing changes.
pub open spec fn offered_changed(entries: Offered, id: Seq<char>, change: ChangeView) -> Offered {
    Seq::new(
        entries.len(),
        |i: int|
            if entries[i].0 == id {
                (entries[i].0, entries[i].1.changed(change))
            } else {
                entries[i]
            },
    )
}

/// Whether no identifier occurs twice in `entries`.
pub open spec fn offered_distinct(entries: Offered) -> bool {
    forall|i: int, j: int|
        0 <= i < j < entries.len() ==> (#[trigger] entries[i]).0 != (#[trigger] entries[j]).0
}

/// Whether every credential of `entries` is settled: stored, or deferred
/// by the issuer.
pub open spec fn offered_all_settled(entries: Offered) -> bool {
    forall|i: int| 0 <= i < entries.len() ==> (#[trigger] entries[i]).1.settled()
}

impl OfferedMap {
    /// Whether no identifier occurs twice.
    pub open spec fn wf(&self) -> bool {
        offered_distinct(self@)
    }

    /// A map with no credentials.
    pub fn new() -> (map: OfferedMap)
        ensures
            map@ == Seq::<(Seq<char>, OfferedCredentialView)>::empty(),
            map.wf(),
    {
        let map = OfferedMap { entries: Vec::new() };
        assert(map@ =~= Seq::empty());
        map
    }

    /// A copy of this map.
    pub fn duplicate(&self) -> (copy: OfferedMap)
        ensures
            copy@ == self@,
    {
        let mut entries: Vec<(String, OfferedCredential)> = Vec::new();
        let mut i: usize = 0;
        while i < self.entries.len()
            invariant
                i <= self.entries.len(),
                entries@.len() == i,
                forall|k: int|
                    0 <= k < i ==> (#[trigger] entries@[k]).0@ == self.entries@[k].0@
                        && entries@[k].1@ == self.entries@[k].1@,
            decreases self.entries.len() - i,
        {
            entries.push((self.entries[i].0.clone(), self.entries[i].1.duplicate()));
            i += 1;
        }
        let copy = OfferedMap { entries };
        assert(copy@ =~= self@);
        copy
    }

    /// Whether the map holds a credential under `id`.
    pub fn contains(&self, id: &str) -> (found: bool)
        ensures
            found == offered_has(self@, id@),
    {
        let wanted = String::from_str(id);
        let mut i: usize = 0;
        while i < self.entries.len()
            invariant
                i <= self.entries.len(),
                wanted@ == id@,
                forall|k: int| 0 <= k < i ==> (#[trigger] self@[k]).0 != id@,
            decreases self.entries.len() - i,
        {
            if self.entries[i].0 == wanted {
                assert(self@[i as int].0 == id@);
                return true;
            }
            i += 1;
        }
        false
    }

    /// The credential that the map holds under `id`.
    pub fn get(&self, id: &str) -> (found: Option<&OfferedCredential>)
        ensures
            found.is_some() == offered_get(self@, id@).is_some(),
            found matches Some(offered) ==> offered_get(self@, id@) == Some(offered@),
    {
        let wanted = String::from_str(id);
        let ghost all = self@;
        assert(all.skip(0) =~= all);
        let mut i: usize = 0;
        while i < self.entries.len()
            invariant
                i <= self.entries.len(),
                wanted@ == id@,
                all == self@,
                offered_get(all, id@) == offered_get(all.skip(i as int), id@),
            decreases self.entries.len() - i,
        {
            assert(all.skip(i as int)[0] == all[i as int]);
            if self.entries[i].0 == wanted {
                return Some(&self.entries[i].1);
            }
            assert(all.skip(i as int).skip(1) =~= all.skip(i as int + 1));
            i += 1;
        }
        None
    }

    /// Takes in what has come in for the credential under `id`. Where there
    /// is no such credential nothing changes.
    pub fn change(&mut self, id: &str, change: &Change)
        ensures
            final(self)@ == offered_changed(old(self)@, id@, change@),
    {
        let wanted = String::from_str(id);
        let ghost orig = self.entries@;
        let mut i: usize = 0;
        while i < self.entries.len()
            invariant
                i <= self.entries.len(),
                wanted@ == id@,
                self.entries@.len() == orig.len(),
                forall|k: int|
                    0 <= k < orig.len() ==> (#[trigger] self.entries@[k]).0@ == orig[k].0@,
                forall|k: int|
                    0 <= k < i ==> (#[trigger] self.entries@[k]).1@ == if orig[k].0@ == id@ {
                        orig[k].1@.changed(change@)
                    } else {
                        orig[k].1@
                    },
                forall|k: int| i <= k < orig.len() ==> (#[trigger] self.entries@[k]).1@ == orig[k].1@,
            decreases self.entries.len() - i,
        {
            if self.entries[i].0 == wanted {
                self.entries[i].1.change(change);
            }
            i += 1;
        }
        assert(self@ =~= offered_changed(old(self)@, id@, change@));
    }

    /// Whether every credential is settled: stored, or deferred by the
    /// issuer.
    pub fn all_settled(&self) -> (all: bool)
        ensures
            all == offered_all_settled(self@),
    {
        let mut i: usize = 0;
        while i < self.entries.len()
            invariant
                i <= self.entries.len(),
                forall|k: int| 0 <= k < i ==> (#[trigger] self@[k]).1.settled(),
            decreases self.entries.len() - i,
        {
            if !(self.entries[i].1.stored || self.entries[i].1.deferred) {
                assert(!self@[i as int].1.settled());
                return false;
            }
            i += 1;
        }
        true
    }
}

/// Changes keep the identifiers, so no identifier comes to occur twice.
pub proof fn lemma_changed_distinct(entries: Offered, id: Seq<char>, change: ChangeView)
    requires
        offered_distinct(entries),
    ensures
        offered_distinct(offered_changed(entries, id, change)),
{
    let after = offered_changed(entries, id, change);
    assert forall|i: int, j: int| 0 <= i < j < after.len() implies (#[trigger] after[i]).0 != (
    #[trigger] after[j]).0 by {
        assert(after[i].0 == entries[i].0);
        assert(after[j].0 == entries[j].0);
    }
}

/// The configurations on offer, looked up at the issuer: one entry for each
/// identifier among the first `n` of `ids`, and `None` where the issuer has
/// no configuration for one of them.
pub open spec fn offered_from(ids: Seq<Seq<char>>, issuer: IssuerView, n: int) -> Option<Offered>
    decreases n,
{
    if n <= 0 {
        Some(Seq::empty())
    } else {
        match offered_from(ids, issuer, n - 1) {
            None => None,
            Some(front) => if offered_has(front, ids[n - 1]) {
                Some(front)
            } else {
                match issuer.configuration(ids[n - 1]) {
                    Some(config) => Some(
                        front.push((ids[n - 1], OfferedCredentialView::fresh(config))),
                    ),
                    None => None,
                }
            },
        }
    }
}

/// The entries looked up at an issuer hold no identifier twice.
pub proof fn lemma_offered_from_distinct(ids: Seq<Seq<char>>, issuer: IssuerView, n: int)
    ensures
        offered_from(ids, issuer, n) matches Some(offered) ==> offered_distinct(offered),
    decreases n,
{
    if n > 0 {
        lemma_offered_from_distinct(ids, issuer, n - 1);
    }
}

/// Once the issuer lacks a configuration, no longer front of the
/// identifiers is looked up.
pub proof fn lemma_offered_from_none(ids: Seq<Seq<char>>, issuer: IssuerView, n: int, m: int)
    requires
        0 < n <= m,
        offered_from(ids, issuer, n) is None,
    ensures
        offered_from(ids, issuer, m) is None,
    decreases m - n,
{
    if n < m {
        lemma_offered_from_none(ids, issuer, n + 1, m);
    }
}

impl OfferedMap {
    /// The value of an optional map.
    pub open spec fn optional_view(value: Option<OfferedMap>) -> Option<Offered> {
        match value {
            Some(v) => Some(v@),
            None => None,
        }
    }

    /// Looks up the configurations on offer at the issuer.
    pub fn from_issuer(ids: &Vec<String>, issuer: &Issuer) -> (offered: Option<OfferedMap>)
        ensures
            OfferedMap::optional_view(offered) == offered_from(
                strings_view(ids@),
                issuer@,
                ids.len() as int,
            ),
            offered matches Some(map) ==> map.wf(),
    {
        let ghost all = strings_view(ids@);
        let mut map = OfferedMap::new();
        let mut i: usize = 0;
        while i < ids.len()
            invariant
                i <= ids.len(),
                all == strings_view(ids@),
                offered_from(all, issuer@, i as int) == Some(map@),
            decreases ids.len() - i,
        {
            if !map.contains(ids[i].as_str()) {
                match issuer.configuration(ids[i].as_str()) {
                    Some(config) => {
                        let ghost before = map@;
                        map.entries.push((ids[i].clone(), OfferedCredential::new(config.duplicate())));
                        assert(map@ =~= before.push(
                            (all[i as int], OfferedCredentialView::fresh(config@)),
                        ));
                    },
                    None => {
                        proof {
                            assert(offered_from(all, issuer@, i as int + 1) is None);
                            lemma_offered_from_none(all, issuer@, i as int + 1, ids.len() as int);
                        }
                        return None;
                    },
                }
            }
            i += 1;
        }
        proof {
            lemma_offered_from_distinct(all, issuer@, ids.len() as int);
        }
        Some(map)
    }
}

/// What a flow carries from state to state: the offer and its grant, which
/// do not change, what the issuer said of itself, and what the holder and
/// the issuer have put in since.
#[derive(Clone, Debug, Default, PartialEq, Eq)]
pub struct Flow {
    /// The identifier of the issuance, given out by the service. It keys the
    /// state of the flow wherever that is persisted.
    pub issuance_id: String,
    /// The name of the issuer; empty where the issuer gave none.
    pub issuer_name: String,
    /// The offer that started the flow.
    pub offer: CredentialOffer,
    /// The grant of the offer.
    pub grant: PreAuthorizedCodeGrant,
    /// The PIN that the holder entered.
    pub pin: Option<String>,
    /// The access token, once the issuer has given one out.
    pub token: Option<TokenResponse>,
}

/// The mathematical value of a [`Flow`].
pub ghost struct FlowView {
    pub issuance_id: Seq<char>,
    pub issuer_name: Seq<char>,
    pub offer: CredentialOfferView,
    pub grant: PreAuthorizedCodeGrantView,
    pub pin: Option<Seq<char>>,
    pub token: Option<TokenResponseView>,
}

impl View for Flow {
    type V = FlowView;

    open spec fn view(&self) -> FlowView {
        FlowView {
            issuance_id: self.issuance_id@,
            issuer_name: self.issuer_name@,
            offer: self.offer@,
            grant: self.grant@,
            pin: optional_string_view(self.pin),
            token: TokenResponse::optional_view(self.token),
        }
    }
}

/// The grant type of a pre-authorized code, as token requests name it.
pub open spec fn pre_authorized_grant_type() -> Seq<char> {
    "urn:ietf:params:oauth:grant-type:pre-authorized_code"@
}

impl FlowView {
    /// The flow as it starts when the issuer's metadata has come in.
    pub open spec fn start(
        offer: CredentialOfferView,
        grant: PreAuthorizedCodeGrantView,
        issuer: IssuerView,
    ) -> FlowView {
        FlowView {
            issuance_id: issuer.issuance_id,
            issuer_name: issuer.name,
            offer,
            grant,
            pin: None,
            token: None,
        }
    }

    /// Whether a PIN that is held is one that the grant accepts.
    pub open spec fn wf(self) -> bool {
        match (self.pin, self.grant.tx_code) {
            (Some(pin), Some(tx_code)) => tx_code.accepts(pin),
            _ => true,
        }
    }

    /// Whether nothing is missing for a token request: the grant asks for no
    /// PIN, or the holder has entered one.
    pub open spec fn pin_ready(self) -> bool {
        self.grant.tx_code is None || self.pin is Some
    }

    /// The PIN that goes into a token request: the one held, where the grant
    /// asks for one.
    pub open spec fn tx_code(self) -> Option<Seq<char>> {
        if self.grant.tx_code is Some {
            self.pin
        } else {
            None
        }
    }

    /// The request for an access token.
    pub open spec fn token_request(self) -> TokenRequestView {
        TokenRequestView {
            credential_issuer: self.offer.credential_issuer,
            client_id: client_id_text(),
            grant_type: pre_authorized_grant_type(),
            pre_authorized_code: self.grant.pre_authorized_code,
            tx_code: self.tx_code(),
        }
    }

    /// The nonce that the issuer gave out with the token.
    pub open spec fn c_nonce(self) -> Option<Seq<char>> {
        match self.token {
            Some(token) => token.c_nonce,
            None => None,
        }
    }

    /// The request for a proof of possession.
    pub open spec fn proof_request(self) -> ProofRequestView {
        ProofRequestView {
            credential_issuer: self.offer.credential_issuer,
            client_id: client_id_text(),
            c_nonce: self.c_nonce(),
        }
    }

    /// The access token; nothing where none has been given out.
    pub open spec fn access_token(self) -> Seq<char> {
        match self.token {
            Some(token) => token.access_token,
            None => Seq::empty(),
        }
    }

    /// The request for the credential of the given configuration, with the
    /// given proof of possession.
    pub open spec fn credential_request(
        self,
        config_id: Seq<char>,
        jwt: Seq<char>,
    ) -> CredentialRequestView {
        CredentialRequestView {
            credential_issuer: self.offer.credential_issuer,
            access_token: self.access_token(),
            credential_configuration_id: config_id,
            proof_type: "jwt"@,
            jwt,
        }
    }
}

impl Flow {
    /// The flow as it starts when the issuer's metadata has come in.
    pub fn start(offer: CredentialOffer, grant: PreAuthorizedCodeGrant, issuer: &Issuer) -> (flow:
        Flow)
        ensures
            flow@ == FlowView::start(offer@, grant@, issuer@),
            flow@.wf(),
    {
        Flow {
            issuance_id: issuer.issuance_id.clone(),
            issuer_name: issuer.name.clone(),
            offer,
            grant,
            pin: None,
            token: None,
        }
    }

    /// A copy of this flow.
    pub fn duplicate(&self) -> (copy: Flow)
        ensures
            copy@ == self@,
    {
        Flow {
            issuance_id: self.issuance_id.clone(),
            issuer_name: self.issuer_name.clone(),
            offer: self.offer.duplicate(),
            grant: self.grant.duplicate(),
            pin: self.pin.clone(),
            token: TokenResponse::optional_duplicate(&self.token),
        }
    }

    /// Whether nothing is missing for a token request.
    pub fn pin_ready(&self) -> (ready: bool)
        ensures
            ready == self@.pin_ready(),
    {
        self.grant.tx_code.is_none() || self.pin.is_some()
    }

    /// The request for an access token.
    pub fn token_request(&self) -> (request: TokenRequest)
        ensures
            request@ == self@.token_request(),
    {
        let tx_code = if self.grant.tx_code.is_some() {
            self.pin.clone()
        } else {
            None
        };
        TokenRequest {
            credential_issuer: self.offer.credential_issuer.clone(),
            client_id: client_id(),
            grant_type: String::from_str("urn:ietf:params:oauth:grant-type:pre-authorized_code"),
            pre_authorized_code: self.grant.pre_authorized_code.clone(),
            tx_code,
        }
    }

    /// The request for a proof of possession.
    pub fn proof_request(&self) -> (request: ProofRequest)
        ensures
            request@ == self@.proof_request(),
    {
        let c_nonce = match &self.token {
            Some(token) => token.c_nonce.clone(),
            None => None,
        };
        ProofRequest {
            credential_issuer: self.offer.credential_issuer.clone(),
            client_id: client_id(),
            c_nonce,
        }
    }

    /// The request for the credential of the given configuration, with the
    /// given proof of possession.
    pub fn credential_request(&self, config_id: &str, jwt: &str) -> (request: CredentialRequest)
        ensures
            request@ == self@.credential_request(config_id@, jwt@),
    {
        let access_token = match &self.token {
            Some(token) => token.access_token.clone(),
            None => String::new(),
        };
        CredentialRequest {
            credential_issuer: self.offer.credential_issuer.clone(),
            access_token,
            credential_configuration_id: String::from_str(config_id),
            proof_type: String::from_str("jwt"),
            jwt: String::from_str(jwt),
        }
    }
}

impl Flow {
    /// The flow once the holder has entered a PIN: with the PIN where the
    /// grant accepts it, with `InvalidPin` where it does not, and unchanged
    /// where the grant asks for none.
    pub fn with_pin(flow: Flow, pin: &str) -> (next: (Flow, Option<IssuanceError>))
        ensures
            match flow@.grant.tx_code {
                Some(tx_code) => if tx_code.accepts(pin@) {
                    next.0@ == (FlowView { pin: Some(pin@), ..flow@ }) && next.1 is None
                } else {
                    next.0@ == flow@ && optional_error_view(next.1) == Some(
                        IssuanceErrorView::InvalidPin,
                    )
                },
                None => next.0@ == flow@ && next.1 is None,
            },
    {
        let accepted = match &flow.grant.tx_code {
            Some(tx_code) => Some(tx_code.accepts(pin)),
            None => None,
        };
        match accepted {
            Some(true) => (
                Flow {
                    issuance_id: flow.issuance_id,
                    issuer_name: flow.issuer_name,
                    offer: flow.offer,
                    grant: flow.grant,
                    pin: Some(String::from_str(pin)),
                    token: flow.token,
                },
                None,
            ),
            Some(false) => (flow, Some(IssuanceError::InvalidPin)),
            None => (flow, None),
        }
    }
}

/// Why a step of an issuance was refused.
#[derive(Clone, Debug, PartialEq, Eq)]
pub enum IssuanceError {
    /// The offer is not percent-encoded UTF-8.
    Encoding,
    /// The decoded offer is no JSON; with the parser's message.
    Syntax { message: String },
    /// The JSON is no offer: a member is missing or of the wrong type, or
    /// no configuration is on offer.
    Malformed,
    /// The offer has no pre-authorized code grant. No other grant is
    /// supported.
    UnsupportedGrant,
    /// The issuer has no configuration for a credential that it offers.
    UnsupportedConfiguration,
    /// The PIN is not of the length or the characters that the issuer asks
    /// for.
    InvalidPin,
}

/// The mathematical value of an [`IssuanceError`].
pub ghost enum IssuanceErrorView {
    Encoding,
    Syntax { message: Seq<char> },
    Malformed,
    UnsupportedGrant,
    UnsupportedConfiguration,
    InvalidPin,
}

impl View for IssuanceError {
    type V = IssuanceErrorView;

    open spec fn view(&self) -> IssuanceErrorView {
        match self {
            IssuanceError::Encoding => IssuanceErrorView::Encoding,
            IssuanceError::Syntax { message } => IssuanceErrorView::Syntax { message: message@ },
            IssuanceError::Malformed => IssuanceErrorView::Malformed,
            IssuanceError::UnsupportedGrant => IssuanceErrorView::UnsupportedGrant,
            IssuanceError::UnsupportedConfiguration => IssuanceErrorView::UnsupportedConfiguration,
            IssuanceError::InvalidPin => IssuanceErrorView::InvalidPin,
        }
    }
}

impl IssuanceErrorView {
    /// The text shown for this error.
    pub open spec fn text(self) -> Seq<char> {
        match self {
            IssuanceErrorView::Encoding => "offer is not percent-encoded text"@,
            IssuanceErrorView::Syntax { message } => "offer is not JSON: "@ + message,
            IssuanceErrorView::Malformed => "offer lacks a member or holds one of the wrong type"@,
            IssuanceErrorView::UnsupportedGrant => "grant other than pre-authorized code is not supported"@,
            IssuanceErrorView::UnsupportedConfiguration => "issuer has no configuration for a credential on offer"@,
            IssuanceErrorView::InvalidPin => "PIN is not of the length and characters asked for"@,
        }
    }

    /// The error for an offer that could not be read.
    pub open spec fn of_decode(error: DecodeErrorView) -> IssuanceErrorView {
        match error {
            DecodeErrorView::Encoding => IssuanceErrorView::Encoding,
            DecodeErrorView::Syntax { message } => IssuanceErrorView::Syntax { message },
            DecodeErrorView::Malformed => IssuanceErrorView::Malformed,
        }
    }
}

impl IssuanceError {
    /// The text shown for this error.
    pub fn to_string(&self) -> (text: String)
        ensures
            text@ == self@.text(),
    {
        match self {
            IssuanceError::Encoding => String::from_str("offer is not percent-encoded text"),
            IssuanceError::Syntax { message } => String::from_str("offer is not JSON: ").concat(
                message.as_str(),
            ),
            IssuanceError::Malformed => String::from_str(
                "offer lacks a member or holds one of the wrong type",
            ),
            IssuanceError::UnsupportedGrant => String::from_str(
                "grant other than pre-authorized code is not supported",
            ),
            IssuanceError::UnsupportedConfiguration => String::from_str(
                "issuer has no configuration for a credential on offer",
            ),
            IssuanceError::InvalidPin => String::from_str(
                "PIN is not of the length and characters asked for",
            ),
        }
    }

    /// The error for an offer that could not be read.
    pub fn of_decode(error: DecodeError) -> (issuance_error: IssuanceError)
        ensures
            issuance_error@ == IssuanceErrorView::of_decode(error@),
    {
        match error {
            DecodeError::Encoding => IssuanceError::Encoding,
            DecodeError::Syntax { message } => IssuanceError::Syntax { message },
            DecodeError::Malformed => IssuanceError::Malformed,
        }
    }
}

/// The state of an issuance. A flow moves forward through the states in
/// the order in which they stand here, or back to `Inactive`.
#[derive(Clone, Debug, Default, PartialEq, Eq)]
pub enum IssuanceState {
    /// No issuance is in progress.
    #[default]
    Inactive,
    /// An offer has been read.
    Offered { offer: CredentialOffer, grant: PreAuthorizedCodeGrant },
    /// The issuer's metadata has come in. The images of the credentials on
    /// offer come in while the flow is in this state or a later one.
    IssuerMetadata { flow: Flow, offered: OfferedMap },
    /// The holder has accepted the offer. A PIN, where one is asked for,
    /// comes in while the flow is in this state or the one before.
    Accepted { flow: Flow, offered: OfferedMap },
    /// The issuer has given out an access token.
    Token { flow: Flow, offered: OfferedMap },
    /// The proof of possession has been made. The credentials come in and
    /// are stored while the flow is in this state.
    Proof { flow: Flow, offered: OfferedMap, proof: String },
}

/// The mathematical value of an [`IssuanceState`].
pub ghost enum IssuanceStateView {
    Inactive,
    Offered { offer: CredentialOfferView, grant: PreAuthorizedCodeGrantView },
    IssuerMetadata { flow: FlowView, offered: Offered },
    Accepted { flow: FlowView, offered: Offered },
    Token { flow: FlowView, offered: Offered },
    Proof { flow: FlowView, offered: Offered, proof: Seq<char> },
}

impl View for IssuanceState {
    type V = IssuanceStateView;

    open spec fn view(&self) -> IssuanceStateView {
        match self {
            IssuanceState::Inactive => IssuanceStateView::Inactive,
            IssuanceState::Offered { offer, grant } => IssuanceStateView::Offered {
                offer: offer@,
                grant: grant@,
            },
            IssuanceState::IssuerMetadata { flow, offered } => IssuanceStateView::IssuerMetadata {
                flow: flow@,
                offered: offered@,
            },
            IssuanceState::Accepted { flow, offered } => IssuanceStateView::Accepted {
                flow: flow@,
                offered: offered@,
            },
            IssuanceState::Token { flow, offered } => IssuanceStateView::Token {
                flow: flow@,
                offered: offered@,
            },
            IssuanceState::Proof { flow, offered, proof } => IssuanceStateView::Proof {
                flow: flow@,
                offered: offered@,
                proof: proof@,
            },
        }
    }
}

/// Which of the two images of a credential.
#[derive(Clone, Copy, Debug, PartialEq, Eq, Structural)]
pub enum ImageKind {
    Logo,
    Background,
}

/// A request to fetch an image for a credential on offer.
#[derive(Clone, Debug, PartialEq, Eq)]
pub struct ImageRequest {
    /// Which image is fetched.
    pub kind: ImageKind,
    /// The configuration of the credential that the image is for.
    pub config_id: String,
    /// Where the image is fetched.
    pub uri: String,
}

/// The mathematical value of an [`ImageRequest`].
pub ghost struct ImageRequestView {
    pub kind: ImageKind,
    pub config_id: Seq<char>,
    pub uri: Seq<char>,
}

impl View for ImageRequest {
    type V = ImageRequestView;

    open spec fn view(&self) -> ImageRequestView {
        ImageRequestView { kind: self.kind, config_id: self.config_id@, uri: self.uri@ }
    }
}

impl ImageRequest {
    /// A copy of this request.
    pub fn duplicate(&self) -> (copy: ImageRequest)
        ensures
            copy@ == self@,
    {
        ImageRequest {
            kind: self.kind,
            config_id: self.config_id.clone(),
            uri: self.uri.clone(),
        }
    }
}

/// The values of a list of image requests, request by request.
pub open spec fn image_requests_view(requests: Seq<ImageRequest>) -> Seq<ImageRequestView> {
    Seq::new(requests.len(), |i: int| requests[i]@)
}

/// The values of a list of credential requests, each with the identifier
/// of its configuration.
pub open spec fn credential_requests_view(requests: Seq<(String, CredentialRequest)>) -> Seq<
    (Seq<char>, CredentialRequestView),
> {
    Seq::new(requests.len(), |i: int| (requests[i].0@, requests[i].1@))
}

/// The images that the entry `offered[at]` still needs, the logo before the
/// background.
pub open spec fn image_requests_at(offered: Offered, at: int) -> Seq<ImageRequestView> {
    let id = offered[at].0;
    let credential = offered[at].1;
    let logo = if credential.needs_logo() {
        seq![
            ImageRequestView {
                kind: ImageKind::Logo,
                config_id: id,
                uri: credential.logo_uri()->Some_0,
            },
        ]
    } else {
        Seq::empty()
    };
    if credential.needs_background() {
        logo.push(
            ImageRequestView {
                kind: ImageKind::Background,
                config_id: id,
                uri: credential.background_uri()->Some_0,
            },
        )
    } else {
        logo
    }
}

/// The images that the first `n` entries still need, entry by entry.
pub open spec fn image_requests_of(offered: Offered, n: int) -> Seq<ImageRequestView>
    decreases n,
{
    if n <= 0 {
        Seq::empty()
    } else {
        image_requests_of(offered, n - 1) + image_requests_at(offered, n - 1)
    }
}

/// The requests for those of the first `n` credentials that the flow
/// waits for, entry by entry.
pub open spec fn credential_requests_of(flow: FlowView, offered: Offered, jwt: Seq<char>, n: int) -> Seq<
    (Seq<char>, CredentialRequestView),
>
    decreases n,
{
    if n <= 0 {
        Seq::empty()
    } else {
        let front = credential_requests_of(flow, offered, jwt, n - 1);
        if offered[n - 1].1.awaited() {
            front.push((offered[n - 1].0, flow.credential_request(offered[n - 1].0, jwt)))
        } else {
            front
        }
    }
}

impl OfferedCredentialView {
    /// The credential that the holder keeps for what the issuer handed out:
    /// what was issued, with the issuer's name and with the display
    /// records, claim definitions and images that the offer came with.
    pub open spec fn credential(self, issuer_name: Seq<char>, issued: IssuedCredentialView) -> CredentialView {
        CredentialView {
            id: issued.id,
            issuer: issued.issuer,
            issuer_name,
            issued: issued.issued,
            type_: issued.type_,
            format: self.config.format,
            subject_claims: issued.subject_claims,
            claim_definitions: self.config.claims(),
            issuance_date: issued.issuance_date,
            valid_from: issued.valid_from,
            valid_until: issued.valid_until,
            display: self.config.display,
            logo: self.logo,
            background: self.background,
        }
    }
}

impl OfferedCredential {
    /// The credential that the holder keeps for what the issuer handed out.
    pub fn credential(&self, issuer_name: &str, issued: &IssuedCredential) -> (credential: Credential)
        ensures
            credential@ == self@.credential(issuer_name@, issued@),
    {
        Credential {
            id: issued.id.clone(),
            issuer: issued.issuer.clone(),
            issuer_name: String::from_str(issuer_name),
            issued: issued.issued.clone(),
            type_: duplicate_strings(&issued.type_),
            format: self.config.format.clone(),
            subject_claims: SubjectClaims::list_duplicate(&issued.subject_claims),
            claim_definitions: self.config.claims(),
            issuance_date: issued.issuance_date.clone(),
            valid_from: issued.valid_from.clone(),
            valid_until: issued.valid_until.clone(),
            display: CredentialDisplay::list_duplicate(&self.config.display),
            logo: ImageData::optional_duplicate(&self.logo),
            background: ImageData::optional_duplicate(&self.background),
        }
    }
}

impl IssuanceStateView {
    /// Whether the state holds what its variant stands for: a grant that is
    /// the offer's, a PIN that the grant accepts, a token from `Token` on
    /// and not before, and no credential twice.
    pub open spec fn wf(self) -> bool {
        match self {
            IssuanceStateView::Inactive => true,
            IssuanceStateView::Offered { offer, grant } => offer.pre_authorized_code() == Some(
                grant,
            ),
            IssuanceStateView::IssuerMetadata { flow, offered } => {
                &&& flow.wf()
                &&& flow.token is None
                &&& offered_distinct(offered)
            },
            IssuanceStateView::Accepted { flow, offered } => {
                &&& flow.wf()
                &&& flow.token is None
                &&& offered_distinct(offered)
            },
            IssuanceStateView::Token { flow, offered } => {
                &&& flow.wf()
                &&& flow.token is Some
                &&& flow.pin_ready()
                &&& offered_distinct(offered)
            },
            IssuanceStateView::Proof { flow, offered, proof } => {
                &&& flow.wf()
                &&& flow.token is Some
                &&& flow.pin_ready()
                &&& offered_distinct(offered)
            },
        }
    }

    /// How far the flow has come: 0 for `Inactive`, then one more for each
    /// state.
    pub open spec fn rank(self) -> nat {
        match self {
            IssuanceStateView::Inactive => 0,
            IssuanceStateView::Offered { .. } => 1,
            IssuanceStateView::IssuerMetadata { .. } => 2,
            IssuanceStateView::Accepted { .. } => 3,
            IssuanceStateView::Token { .. } => 4,
            IssuanceStateView::Proof { .. } => 5,
        }
    }

    /// The flow, from `IssuerMetadata` on.
    pub open spec fn flow(self) -> Option<FlowView> {
        match self {
            IssuanceStateView::IssuerMetadata { flow, .. } => Some(flow),
            IssuanceStateView::Accepted { flow, .. } => Some(flow),
            IssuanceStateView::Token { flow, .. } => Some(flow),
            IssuanceStateView::Proof { flow, .. } => Some(flow),
            _ => None,
        }
    }

    /// The identifier under which state of the flow is persisted, from
    /// `IssuerMetadata` on.
    pub open spec fn issuance_id(self) -> Option<Seq<char>> {
        match self.flow() {
            Some(flow) => Some(flow.issuance_id),
            None => None,
        }
    }

    /// The credentials on offer, from `IssuerMetadata` on.
    pub open spec fn offered(self) -> Option<Offered> {
        match self {
            IssuanceStateView::IssuerMetadata { offered, .. } => Some(offered),
            IssuanceStateView::Accepted { offered, .. } => Some(offered),
            IssuanceStateView::Token { offered, .. } => Some(offered),
            IssuanceStateView::Proof { offered, .. } => Some(offered),
            _ => None,
        }
    }

    /// The state that an offer starts: `Offered` with the offer's
    /// pre-authorized code grant, and `UnsupportedGrant` where it has none.
    pub open spec fn from_offer(offer: CredentialOfferView) -> Result<
        IssuanceStateView,
        IssuanceErrorView,
    > {
        match offer.pre_authorized_code() {
            Some(grant) => Ok(IssuanceStateView::Offered { offer, grant }),
            None => Err(IssuanceErrorView::UnsupportedGrant),
        }
    }

    /// The state that an encoded offer starts, from what reading it gave.
    pub open spec fn from_decoded(decoded: Result<CredentialOfferView, DecodeErrorView>) -> Result<
        IssuanceStateView,
        IssuanceErrorView,
    > {
        match decoded {
            Ok(offer) => IssuanceStateView::from_offer(offer),
            Err(error) => Err(IssuanceErrorView::of_decode(error)),
        }
    }

    /// The state once the issuer's metadata has come in. From `Offered` the
    /// flow moves to `IssuerMetadata`, with an entry for each credential on
    /// offer; where the issuer lacks a configuration the state stays and
    /// the error says so. In any other state, and where the metadata is
    /// that of another issuer than the one of the offer, the metadata is
    /// stale and nothing changes.
    pub open spec fn on_issuer(self, issuer: IssuerView) -> (IssuanceStateView, Option<IssuanceErrorView>) {
        match self {
            IssuanceStateView::Offered { offer, grant } => if issuer.credential_issuer
                != offer.credential_issuer {
                (self, None)
            } else {
                match offered_from(
                offer.credential_configuration_ids,
                issuer,
                offer.credential_configuration_ids.len() as int,
            ) {
                    Some(offered) => (
                        IssuanceStateView::IssuerMetadata {
                            flow: FlowView::start(offer, grant, issuer),
                            offered,
                        },
                        None,
                    ),
                    None => (self, Some(IssuanceErrorView::UnsupportedConfiguration)),
                }
            },
            _ => (self, None),
        }
    }

    /// The images that are still to be fetched.
    pub open spec fn image_requests(self) -> Seq<ImageRequestView> {
        match self.offered() {
            Some(offered) => image_requests_of(offered, offered.len() as int),
            None => Seq::empty(),
        }
    }

    /// The state once `change` has come in for the credential under `id`.
    /// Where there is no such credential, or no flow, nothing changes.
    pub open spec fn on_change(self, id: Seq<char>, change: ChangeView) -> IssuanceStateView {
        match self {
            IssuanceStateView::IssuerMetadata { flow, offered } => IssuanceStateView::IssuerMetadata {
                flow,
                offered: offered_changed(offered, id, change),
            },
            IssuanceStateView::Accepted { flow, offered } => IssuanceStateView::Accepted {
                flow,
                offered: offered_changed(offered, id, change),
            },
            IssuanceStateView::Token { flow, offered } => IssuanceStateView::Token {
                flow,
                offered: offered_changed(offered, id, change),
            },
            IssuanceStateView::Proof { flow, offered, proof } => IssuanceStateView::Proof {
                flow,
                offered: offered_changed(offered, id, change),
                proof,
            },
            _ => self,
        }
    }

    /// The state once the holder has entered a PIN. In `IssuerMetadata` and
    /// in `Accepted` a PIN that the grant accepts is kept, and one that it
    /// does not accept is refused with `InvalidPin`; the state stays in
    /// either case. Where the grant asks for no PIN, and in any other
    /// state, nothing changes.
    pub open spec fn on_pin(self, pin: Seq<char>) -> (IssuanceStateView, Option<IssuanceErrorView>) {
        match self {
            IssuanceStateView::IssuerMetadata { flow, offered } => match flow.grant.tx_code {
                Some(tx_code) => if tx_code.accepts(pin) {
                    (
                        IssuanceStateView::IssuerMetadata {
                            flow: FlowView { pin: Some(pin), ..flow },
                            offered,
                        },
                        None,
                    )
                } else {
                    (self, Some(IssuanceErrorView::InvalidPin))
                },
                None => (self, None),
            },
            IssuanceStateView::Accepted { flow, offered } => match flow.grant.tx_code {
                Some(tx_code) => if tx_code.accepts(pin) {
                    (
                        IssuanceStateView::Accepted {
                            flow: FlowView { pin: Some(pin), ..flow },
                            offered,
                        },
                        None,
                    )
                } else {
                    (self, Some(IssuanceErrorView::InvalidPin))
                },
                None => (self, None),
            },
            _ => (self, None),
        }
    }

    /// The state once the holder has accepted the offer: `Accepted` from
    /// `IssuerMetadata`, and unchanged from anywhere else.
    pub open spec fn on_accept(self) -> IssuanceStateView {
        match self {
            IssuanceStateView::IssuerMetadata { flow, offered } => IssuanceStateView::Accepted {
                flow,
                offered,
            },
            _ => self,
        }
    }

    /// The token request that an accepted flow can make: none before the
    /// offer is accepted, none after a token has come in, and none while a
    /// PIN is asked for and not held.
    pub open spec fn token_request(self) -> Option<TokenRequestView> {
        match self {
            IssuanceStateView::Accepted { flow, .. } => if flow.pin_ready() {
                Some(flow.token_request())
            } else {
                None
            },
            _ => None,
        }
    }

    /// The state once an access token has come in: `Token` from an
    /// `Accepted` flow that could ask for one, and unchanged from anywhere
    /// else.
    pub open spec fn on_token(self, token: TokenResponseView) -> IssuanceStateView {
        match self {
            IssuanceStateView::Accepted { flow, offered } => if flow.pin_ready() {
                IssuanceStateView::Token { flow: FlowView { token: Some(token), ..flow }, offered }
            } else {
                self
            },
            _ => self,
        }
    }

    /// The request for a proof of possession, in `Token`.
    pub open spec fn proof_request(self) -> Option<ProofRequestView> {
        match self {
            IssuanceStateView::Token { flow, .. } => Some(flow.proof_request()),
            _ => None,
        }
    }

    /// The state once the proof of possession has come in: `Proof` from
    /// `Token`, and unchanged from anywhere else.
    pub open spec fn on_proof(self, jwt: Seq<char>) -> IssuanceStateView {
        match self {
            IssuanceStateView::Token { flow, offered } => IssuanceStateView::Proof {
                flow,
                offered,
                proof: jwt,
            },
            _ => self,
        }
    }

    /// The requests for the credentials that the flow waits for, in
    /// `Proof`.
    pub open spec fn credential_requests(self) -> Seq<(Seq<char>, CredentialRequestView)> {
        match self {
            IssuanceStateView::Proof { flow, offered, proof } => credential_requests_of(
                flow,
                offered,
                proof,
                offered.len() as int,
            ),
            _ => Seq::empty(),
        }
    }

    /// The credential to keep for what the issuer handed out for the
    /// configuration `id`: none unless the flow is in `Proof` and waits for
    /// that credential.
    pub open spec fn credential(self, id: Seq<char>, issued: IssuedCredentialView) -> Option<
        CredentialView,
    > {
        match self {
            IssuanceStateView::Proof { flow, offered, .. } => match offered_get(offered, id) {
                Some(credential) => if credential.awaited() {
                    Some(credential.credential(flow.issuer_name, issued))
                } else {
                    None
                },
                None => None,
            },
            _ => None,
        }
    }

    /// Whether the flow waits for the credential of the configuration
    /// `id`.
    pub open spec fn awaits(self, id: Seq<char>) -> bool {
        match self {
            IssuanceStateView::Proof { offered, .. } => match offered_get(offered, id) {
                Some(credential) => credential.awaited(),
                None => false,
            },
            _ => false,
        }
    }

    /// The state once the issuer has deferred the credential for the
    /// configuration `id`: in `Proof`, where the flow waits for that
    /// credential, the credential counts as settled, and when every
    /// credential on offer is settled the flow is over and the state is
    /// `Inactive`. Anywhere else nothing changes.
    pub open spec fn on_deferred(self, id: Seq<char>) -> IssuanceStateView {
        match self {
            IssuanceStateView::Proof { flow, offered, proof } => if self.awaits(id) {
                let after = offered_changed(offered, id, ChangeView::Deferred);
                if offered_all_settled(after) {
                    IssuanceStateView::Inactive
                } else {
                    IssuanceStateView::Proof { flow, offered: after, proof }
                }
            } else {
                self
            },
            _ => self,
        }
    }

    /// The state once the credential for the configuration `id` has been
    /// stored: in `Proof` that credential counts as stored, and when every
    /// credential on offer is settled the flow is over and the state is
    /// `Inactive`. Anywhere else nothing changes.
    pub open spec fn on_stored(self, id: Seq<char>) -> IssuanceStateView {
        match self {
            IssuanceStateView::Proof { flow, offered, proof } => {
                let after = offered_changed(offered, id, ChangeView::Stored);
                if offered_all_settled(after) {
                    IssuanceStateView::Inactive
                } else {
                    IssuanceStateView::Proof { flow, offered: after, proof }
                }
            },
            _ => self,
        }
    }
}

/// The value of a state that an offer started, or of the error in its
/// place.
pub open spec fn started_view(started: Result<IssuanceState, IssuanceError>) -> Result<
    IssuanceStateView,
    IssuanceErrorView,
> {
    match started {
        Ok(state) => Ok(state@),
        Err(error) => Err(error@),
    }
}

/// The value of an optional error.
pub open spec fn optional_error_view(error: Option<IssuanceError>) -> Option<IssuanceErrorView> {
    match error {
        Some(e) => Some(e@),
        None => None,
    }
}

impl IssuanceState {
    /// The state that an offer starts.
    pub fn from_credential_offer(offer: CredentialOffer) -> (started: Result<
        IssuanceState,
        IssuanceError,
    >)
        ensures
            started_view(started) == IssuanceStateView::from_offer(offer@),
            started matches Ok(state) ==> state@.wf(),
    {
        match offer.pre_authorized_code() {
            Some(grant) => Ok(IssuanceState::Offered { offer, grant }),
            None => Err(IssuanceError::UnsupportedGrant),
        }
    }

    /// The state that an encoded offer starts, from what reading it gave.
    pub fn from_decoded(decoded: Result<CredentialOffer, DecodeError>) -> (started: Result<
        IssuanceState,
        IssuanceError,
    >)
        ensures
            started_view(started) == IssuanceStateView::from_decoded(decoded_view(decoded)),
            started matches Ok(state) ==> state@.wf(),
    {
        match decoded {
            Ok(offer) => IssuanceState::from_credential_offer(offer),
            Err(error) => Err(IssuanceError::of_decode(error)),
        }
    }

    /// Reads an encoded offer and starts an issuance from it. The text is
    /// percent-decoded and parsed as JSON; an offer with a pre-authorized
    /// code grant gives `Offered` with that grant, and any other offer
    /// `UnsupportedGrant`. A text that is no offer gives the error of the
    /// step that fails first.
    pub fn from_offer(encoded_offer: &str) -> (started: Result<IssuanceState, IssuanceError>)
        ensures
            started_view(started) == IssuanceStateView::from_decoded(
                offer_decoded(encoded_offer@),
            ),
            match offer_decoded(encoded_offer@) {
                Ok(offer) => started_view(started) == IssuanceStateView::from_offer(offer),
                Err(error) => started_view(started) == Err::<IssuanceStateView, _>(
                    IssuanceErrorView::of_decode(error),
                ),
            },
            started matches Ok(state) ==> state@.wf(),
    {
        IssuanceState::from_decoded(CredentialOffer::decode(encoded_offer))
    }

    /// The identifier under which state of the flow is persisted.
    pub fn issuance_id(&self) -> (id: Option<String>)
        ensures
            optional_string_view(id) == self@.issuance_id(),
    {
        match self {
            IssuanceState::IssuerMetadata { flow, .. } => Some(flow.issuance_id.clone()),
            IssuanceState::Accepted { flow, .. } => Some(flow.issuance_id.clone()),
            IssuanceState::Token { flow, .. } => Some(flow.issuance_id.clone()),
            IssuanceState::Proof { flow, .. } => Some(flow.issuance_id.clone()),
            _ => None,
        }
    }

    /// Takes in the issuer's metadata.
    pub fn issuer(self, issuer: &Issuer) -> (next: (IssuanceState, Option<IssuanceError>))
        ensures
            (next.0@, optional_error_view(next.1)) == self@.on_issuer(issuer@),
            self@.wf() ==> next.0@.wf(),
    {
        match self {
            IssuanceState::Offered { offer, grant } => {
                if !(issuer.credential_issuer == offer.credential_issuer) {
                    return (IssuanceState::Offered { offer, grant }, None);
                }
                match OfferedMap::from_issuer(&offer.credential_configuration_ids, issuer) {
                    Some(offered) => (
                        IssuanceState::IssuerMetadata {
                            flow: Flow::start(offer, grant, issuer),
                            offered,
                        },
                        None,
                    ),
                    None => (
                        IssuanceState::Offered { offer, grant },
                        Some(IssuanceError::UnsupportedConfiguration),
                    ),
                }
            },
            other => (other, None),
        }
    }

    /// The images that are still to be fetched.
    pub fn image_requests(&self) -> (requests: Vec<ImageRequest>)
        ensures
            image_requests_view(requests@) == self@.image_requests(),
    {
        let offered = match self {
            IssuanceState::IssuerMetadata { offered, .. } => offered,
            IssuanceState::Accepted { offered, .. } => offered,
            IssuanceState::Token { offered, .. } => offered,
            IssuanceState::Proof { offered, .. } => offered,
            _ => {
                let requests: Vec<ImageRequest> = Vec::new();
                assert(image_requests_view(requests@) =~= Seq::empty());
                return requests;
            },
        };
        let mut requests: Vec<ImageRequest> = Vec::new();
        let mut i: usize = 0;
        assert(image_requests_view(requests@) =~= Seq::empty());
        while i < offered.entries.len()
            invariant
                i <= offered.entries.len(),
                image_requests_view(requests@) == image_requests_of(offered@, i as int),
            decreases offered.entries.len() - i,
        {
            let ghost before = image_requests_view(requests@);
            let id = &offered.entries[i].0;
            let credential = &offered.entries[i].1;
            assert(offered@[i as int] == (id@, credential@));
            if credential.needs_logo() {
                match credential.logo_uri() {
                    Some(uri) => {
                        requests.push(
                            ImageRequest {
                                kind: ImageKind::Logo,
                                config_id: id.clone(),
                                uri: uri.clone(),
                            },
                        );
                    },
                    None => {},
                }
            }
            if credential.needs_background() {
                match credential.background_uri() {
                    Some(uri) => {
                        requests.push(
                            ImageRequest {
                                kind: ImageKind::Background,
                                config_id: id.clone(),
                                uri: uri.clone(),
                            },
                        );
                    },
                    None => {},
                }
            }
            assert(image_requests_view(requests@) =~= before + image_requests_at(
                offered@,
                i as int,
            ));
            i += 1;
        }
        requests
    }

    /// Takes in what has come in for the credential under `id`.
    pub fn change(&mut self, id: &str, change: &Change)
        ensures
            final(self)@ == old(self)@.on_change(id@, change@),
            old(self)@.wf() ==> final(self)@.wf(),
    {
        proof {
            match self@.offered() {
                Some(offered) => {
                    if offered_distinct(offered) {
                        lemma_changed_distinct(offered, id@, change@);
                    }
                },
                None => {},
            }
        }
        match self {
            IssuanceState::IssuerMetadata { offered, .. } => offered.change(id, change),
            IssuanceState::Accepted { offered, .. } => offered.change(id, change),
            IssuanceState::Token { offered, .. } => offered.change(id, change),
            IssuanceState::Proof { offered, .. } => offered.change(id, change),
            _ => {},
        }
    }

    /// Takes in the PIN that the holder entered.
    pub fn pin(self, pin: &str) -> (next: (IssuanceState, Option<IssuanceError>))
        ensures
            (next.0@, optional_error_view(next.1)) == self@.on_pin(pin@),
            self@.wf() ==> next.0@.wf(),
            next.0@.rank() == self@.rank(),
    {
        match self {
            IssuanceState::IssuerMetadata { flow, offered } => {
                match Flow::with_pin(flow, pin) {
                    (flow, error) => (IssuanceState::IssuerMetadata { flow, offered }, error),
                }
            },
            IssuanceState::Accepted { flow, offered } => {
                match Flow::with_pin(flow, pin) {
                    (flow, error) => (IssuanceState::Accepted { flow, offered }, error),
                }
            },
            other => (other, None),
        }
    }

    /// Takes in that the holder has accepted the offer.
    pub fn accept(self) -> (next: IssuanceState)
        ensures
            next@ == self@.on_accept(),
            self@.wf() ==> next@.wf(),
    {
        match self {
            IssuanceState::IssuerMetadata { flow, offered } => IssuanceState::Accepted {
                flow,
                offered,
            },
            other => other,
        }
    }

    /// The token request that the flow can make now.
    pub fn token_request(&self) -> (request: Option<TokenRequest>)
        ensures
            request.is_some() == self@.token_request().is_some(),
            request matches Some(r) ==> self@.token_request() == Some(r@),
    {
        match self {
            IssuanceState::Accepted { flow, .. } => {
                if flow.pin_ready() {
                    Some(flow.token_request())
                } else {
                    None
                }
            },
            _ => None,
        }
    }

    /// Takes in the access token that the issuer gave out.
    pub fn token(self, token: TokenResponse) -> (next: IssuanceState)
        ensures
            next@ == self@.on_token(token@),
            self@.wf() ==> next@.wf(),
    {
        match self {
            IssuanceState::Accepted { flow, offered } => {
                if flow.pin_ready() {
                    let flow = Flow {
                        issuance_id: flow.issuance_id,
                        issuer_name: flow.issuer_name,
                        offer: flow.offer,
                        grant: flow.grant,
                        pin: flow.pin,
                        token: Some(token),
                    };
                    IssuanceState::Token { flow, offered }
                } else {
                    IssuanceState::Accepted { flow, offered }
                }
            },
            other => other,
        }
    }

    /// The request for a proof of possession.
    pub fn proof_request(&self) -> (request: Option<ProofRequest>)
        ensures
            request.is_some() == self@.proof_request().is_some(),
            request matches Some(r) ==> self@.proof_request() == Some(r@),
    {
        match self {
            IssuanceState::Token { flow, .. } => Some(flow.proof_request()),
            _ => None,
        }
    }

    /// Takes in the proof of possession.
    pub fn proven(self, jwt: String) -> (next: IssuanceState)
        ensures
            next@ == self@.on_proof(jwt@),
            self@.wf() ==> next@.wf(),
    {
        match self {
            IssuanceState::Token { flow, offered } => IssuanceState::Proof {
                flow,
                offered,
                proof: jwt,
            },
            other => other,
        }
    }

    /// The requests for the credentials that have not been received.
    pub fn credential_requests(&self) -> (requests: Vec<(String, CredentialRequest)>)
        ensures
            credential_requests_view(requests@) == self@.credential_requests(),
    {
        let mut requests: Vec<(String, CredentialRequest)> = Vec::new();
        assert(credential_requests_view(requests@) =~= Seq::empty());
        match self {
            IssuanceState::Proof { flow, offered, proof } => {
                let mut i: usize = 0;
                while i < offered.entries.len()
                    invariant
                        i <= offered.entries.len(),
                        credential_requests_view(requests@) == credential_requests_of(
                            flow@,
                            offered@,
                            proof@,
                            i as int,
                        ),
                    decreases offered.entries.len() - i,
                {
                    let ghost before = credential_requests_view(requests@);
                    let id = &offered.entries[i].0;
                    assert(offered@[i as int] == (id@, offered.entries[i as int].1@));
                    if !offered.entries[i].1.received && !offered.entries[i].1.deferred {
                        requests.push(
                            (id.clone(), flow.credential_request(id.as_str(), proof.as_str())),
                        );
                        assert(credential_requests_view(requests@) =~= before.push(
                            (id@, flow@.credential_request(id@, proof@)),
                        ));
                    }
                    i += 1;
                }
            },
            _ => {},
        }
        requests
    }

    /// The credential to keep for what the issuer handed out for the
    /// configuration `id`.
    pub fn credential(&self, id: &str, issued: &IssuedCredential) -> (credential: Option<Credential>)
        ensures
            credential.is_some() == self@.credential(id@, issued@).is_some(),
            credential matches Some(c) ==> self@.credential(id@, issued@) == Some(c@),
    {
        match self {
            IssuanceState::Proof { flow, offered, .. } => match offered.get(id) {
                Some(credential) => {
                    if credential.received || credential.deferred {
                        None
                    } else {
                        Some(credential.credential(flow.issuer_name.as_str(), issued))
                    }
                },
                None => None,
            },
            _ => None,
        }
    }

    /// Whether the flow waits for the credential of the configuration
    /// `id`.
    pub fn awaits(&self, id: &str) -> (awaited: bool)
        ensures
            awaited == self@.awaits(id@),
    {
        match self {
            IssuanceState::Proof { offered, .. } => match offered.get(id) {
                Some(credential) => !credential.received && !credential.deferred,
                None => false,
            },
            _ => false,
        }
    }

    /// Takes in that the issuer has deferred the credential for the
    /// configuration `id`.
    pub fn deferred(self, id: &str) -> (next: IssuanceState)
        ensures
            next@ == self@.on_deferred(id@),
            self@.wf() ==> next@.wf(),
    {
        if !self.awaits(id) {
            return self;
        }
        match self {
            IssuanceState::Proof { flow, offered, proof } => {
                let mut offered = offered;
                proof {
                    if offered_distinct(offered@) {
                        lemma_changed_distinct(offered@, id@, ChangeView::Deferred);
                    }
                }
                offered.change(id, &Change::Deferred);
                if offered.all_settled() {
                    IssuanceState::Inactive
                } else {
                    IssuanceState::Proof { flow, offered, proof }
                }
            },
            other => other,
        }
    }

    /// Takes in that the credential for the configuration `id` has been
    /// stored.
    pub fn stored(self, id: &str) -> (next: IssuanceState)
        ensures
            next@ == self@.on_stored(id@),
            self@.wf() ==> next@.wf(),
    {
        match self {
            IssuanceState::Proof { flow, offered, proof } => {
                let mut offered = offered;
                proof {
                    if offered_distinct(offered@) {
                        lemma_changed_distinct(offered@, id@, ChangeView::Stored);
                    }
                }
                offered.change(id, &Change::Stored);
                if offered.all_settled() {
                    IssuanceState::Inactive
                } else {
                    IssuanceState::Proof { flow, offered, proof }
                }
            },
            other => other,
        }
    }

    /// Gives the issuance up: the state is `Inactive`, whatever it was. The
    /// identifier that comes back is the one under which state of the flow
    /// was persisted, if the flow had come that far: what is kept under it
    /// is to be purged.
    pub fn cancel(&mut self) -> (purge: Option<String>)
        ensures
            final(self)@ is Inactive,
            optional_string_view(purge) == old(self)@.issuance_id(),
    {
        let purge = self.issuance_id();
        *self = IssuanceState::Inactive;
        purge
    }
}

} // verus!
