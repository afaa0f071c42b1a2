//! The holder capability: the handling of an offer as one request to the
//! shell, for a shell that runs the holder's side of the protocol itself.

use crate::holder::metadata::{configurations_view, CredentialConfiguration, CredentialConfigurationView};
use crate::holder::offer::{CredentialOffer, CredentialOfferView, TxCode, TxCodeView};
use vstd::prelude::*;
use vstd::string::StringExecFns;

verus! {

/// What can go wrong with a request to the holder capability.
#[derive(Clone, Debug, PartialEq, Eq)]
pub enum HolderError {
    /// The core built a request that cannot be carried out.
    InvalidRequest { message: String },
    /// The shell answered with something that the request does not allow.
    InvalidResponse { message: String },
}

/// The mathematical value of a [`HolderError`].
pub ghost enum HolderErrorView {
    InvalidRequest { message: Seq<char> },
    InvalidResponse { message: Seq<char> },
}

impl View for HolderError {
    type V = HolderErrorView;

    open spec fn view(&self) -> HolderErrorView {
        match self {
            HolderError::InvalidRequest { message } => HolderErrorView::InvalidRequest {
                message: message@,
            },
            HolderError::InvalidResponse { message } => HolderErrorView::InvalidResponse {
                message: message@,
            },
        }
    }
}

impl HolderErrorView {
    /// The text shown for this error.
    pub open spec fn text(self) -> Seq<char> {
        match self {
            HolderErrorView::InvalidRequest { message } => "invalid store request "@ + message,
            HolderErrorView::InvalidResponse { message } => "invalid store response "@ + message,
        }
    }
}

impl HolderError {
    /// The text shown for this error.
    pub fn to_string(&self) -> (text: String)
        ensures
            text@ == self@.text(),
    {
        match self {
            HolderError::InvalidRequest { message } => String::from_str(
                "invalid store request ",
            ).concat(message.as_str()),
            HolderError::InvalidResponse { message } => String::from_str(
                "invalid store response ",
            ).concat(message.as_str()),
        }
    }
}

/// A request to take up an offer.
#[derive(Clone, Debug, PartialEq, Eq)]
pub struct OfferRequest {
    /// The identifier of the wallet.
    pub client_id: String,
    /// The offer.
    pub offer: CredentialOffer,
}

/// The mathematical value of an [`OfferRequest`].
pub ghost struct OfferRequestView {
    pub client_id: Seq<char>,
    pub offer: CredentialOfferView,
}

impl View for OfferRequest {
    type V = OfferRequestView;

    open spec fn view(&self) -> OfferRequestView {
        OfferRequestView { client_id: self.client_id@, offer: self.offer@ }
    }
}

/// What taking up an offer gave: the issuance that it started.
#[derive(Clone, Debug, PartialEq, Eq)]
pub struct OfferResponse {
    /// The identifier of the issuance.
    pub issuance_id: String,
    /// The issuer: the address of its service.
    pub issuer: String,
    /// The name of the issuer.
    pub issuer_name: String,
    /// The configurations of the credentials on offer, each under its
    /// identifier.
    pub offered: Vec<(String, CredentialConfiguration)>,
    /// The PIN that the holder has to enter, where the issuer asks for one.
    pub tx_code: Option<TxCode>,
}

/// The mathematical value of an [`OfferResponse`].
pub ghost struct OfferResponseView {
    pub issuance_id: Seq<char>,
    pub issuer: Seq<char>,
    pub issuer_name: Seq<char>,
    pub offered: Seq<(Seq<char>, CredentialConfigurationView)>,
    pub tx_code: Option<TxCodeView>,
}

impl View for OfferResponse {
    type V = OfferResponseView;

    open spec fn view(&self) -> OfferResponseView {
        OfferResponseView {
            issuance_id: self.issuance_id@,
            issuer: self.issuer@,
            issuer_name: self.issuer_name@,
            offered: configurations_view(self.offered@),
            tx_code: TxCode::optional_view(self.tx_code),
        }
    }
}

/// A request to the holder capability.
#[derive(Clone, Debug, PartialEq, Eq)]
pub enum HolderOperation {
    /// Take up an offer.
    Offer { request: OfferRequest },
}

/// The mathematical value of a [`HolderOperation`].
pub ghost enum HolderOperationView {
    Offer { request: OfferRequestView },
}

impl View for HolderOperation {
    type V = HolderOperationView;

    open spec fn view(&self) -> HolderOperationView {
        match self {
            HolderOperation::Offer { request } => HolderOperationView::Offer { request: request@ },
        }
    }
}

/// What the holder capability answers when a request has been carried
/// out.
#[derive(Clone, Debug, PartialEq, Eq)]
pub enum HolderResponse {
    /// The answer to `Offer`.
    Offer { offer_response: OfferResponse },
}

/// The mathematical value of a [`HolderResponse`].
pub ghost enum HolderResponseView {
    Offer { offer_response: OfferResponseView },
}

impl View for HolderResponse {
    type V = HolderResponseView;

    open spec fn view(&self) -> HolderResponseView {
        match self {
            HolderResponse::Offer { offer_response } => HolderResponseView::Offer {
                offer_response: offer_response@,
            },
        }
    }
}

/// The outcome of a request to the holder capability.
#[derive(Clone, Debug, PartialEq, Eq)]
pub enum HolderResult {
    /// The request was carried out.
    Success { response: HolderResponse },
    /// The request failed.
    Failure { error: HolderError },
}

/// The mathematical value of a [`HolderResult`].
pub ghost enum HolderResultView {
    Success { response: HolderResponseView },
    Failure { error: HolderErrorView },
}

impl View for HolderResult {
    type V = HolderResultView;

    open spec fn view(&self) -> HolderResultView {
        match self {
            HolderResult::Success { response } => HolderResultView::Success { response: response@ },
            HolderResult::Failure { error } => HolderResultView::Failure { error: error@ },
        }
    }
}

impl HolderResultView {
    /// What the outcome of an `Offer` request means to its caller.
    pub open spec fn unwrap_offer(self) -> Result<OfferResponseView, HolderErrorView> {
        match self {
            HolderResultView::Success { response: HolderResponseView::Offer { offer_response } } => Ok(
                offer_response,
            ),
            HolderResultView::Failure { error } => Err(error),
        }
    }
}

/// The value of the outcome of an `Offer` request.
pub open spec fn offer_result_view(result: Result<OfferResponse, HolderError>) -> Result<
    OfferResponseView,
    HolderErrorView,
> {
    match result {
        Ok(response) => Ok(response@),
        Err(error) => Err(error@),
    }
}

impl HolderResult {
    /// Reads the outcome of an `Offer` request: the issuance that was
    /// started, or the error.
    pub fn unwrap_offer(self) -> (result: Result<OfferResponse, HolderError>)
        ensures
            offer_result_view(result) == self@.unwrap_offer(),
    {
        match self {
            HolderResult::Success { response } => match response {
                HolderResponse::Offer { offer_response } => Ok(offer_response),
            },
            HolderResult::Failure { error } => Err(error),
        }
    }
}

/// The request to take up an offer.
pub fn offer(request: OfferRequest) -> (operation: HolderOperation)
    ensures
        operation@ == (HolderOperationView::Offer { request: request@ }),
{
    HolderOperation::Offer { request }
}

} // verus!
