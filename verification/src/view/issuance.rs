//! An issuance as it is shown.

use crate::holder::offer::{TxCode as TxCodeModel, TxCodeView as TxCodeModelView};
use crate::json::optional_string_view;
use crate::model::issuance::{IssuanceState, IssuanceStateView};
use crate::model::optional_issuance_view;
use crate::view::credential::{text_or_empty, Credential, CredentialShown};
use vstd::prelude::*;
use vstd::std_specs::convert::FromSpecImpl;
use vstd::string::StringExecFns;

verus! {

/// What is shown of the PIN that an issuer asks for.
#[derive(Clone, Debug, PartialEq, Eq)]
pub struct TxCode {
    /// The characters that the PIN is made of: `numeric` or `text`.
    pub input_mode: String,
    /// The number of characters of the PIN; zero where the issuer names
    /// none.
    pub length: i32,
    /// Guidance for the holder.
    pub description: String,
}

/// The mathematical value of a shown [`TxCode`].
pub ghost struct TxCodeShown {
    pub input_mode: Seq<char>,
    pub length: i32,
    pub description: Seq<char>,
}

impl View for TxCode {
    type V = TxCodeShown;

    open spec fn view(&self) -> TxCodeShown {
        TxCodeShown {
            input_mode: self.input_mode@,
            length: self.length,
            description: self.description@,
        }
    }
}

impl TxCodeShown {
    /// What is shown where no PIN is asked for: a numeric PIN of no
    /// length.
    pub open spec fn none() -> TxCodeShown {
        TxCodeShown { input_mode: "numeric"@, length: 0, description: Seq::empty() }
    }

    /// What is shown of the PIN that an issuer asks for: what the issuer
    /// says of it, and for what it leaves out, numeric input, no length and
    /// no guidance.
    pub open spec fn of_model(tx_code: Option<TxCodeModelView>) -> TxCodeShown {
        match tx_code {
            Some(t) => TxCodeShown {
                input_mode: match t.input_mode {
                    Some(mode) => mode,
                    None => "numeric"@,
                },
                length: match t.length {
                    Some(length) => length,
                    None => 0,
                },
                description: text_or_empty(t.description),
            },
            None => TxCodeShown::none(),
        }
    }
}

impl Default for TxCode {
    fn default() -> (shown: TxCode)
        ensures
            shown@ == TxCodeShown::none(),
    {
        TxCode { input_mode: String::from_str("numeric"), length: 0, description: String::new() }
    }
}

impl TxCode {
    /// What is shown of the PIN that an issuer asks for.
    pub fn from_model(tx_code: &Option<TxCodeModel>) -> (shown: TxCode)
        ensures
            shown@ == TxCodeShown::of_model(TxCodeModel::optional_view(*tx_code)),
    {
        match tx_code {
            Some(t) => TxCode {
                input_mode: match &t.input_mode {
                    Some(mode) => mode.clone(),
                    None => String::from_str("numeric"),
                },
                length: match t.length {
                    Some(length) => length,
                    None => 0,
                },
                description: match &t.description {
                    Some(description) => description.clone(),
                    None => String::new(),
                },
            },
            None => TxCode::default(),
        }
    }
}

impl From<Option<TxCodeModel>> for TxCode {
    fn from(tx_code: Option<TxCodeModel>) -> (shown: TxCode)
        ensures
            shown@ == TxCodeShown::of_model(TxCodeModel::optional_view(tx_code)),
    {
        TxCode::from_model(&tx_code)
    }
}

impl FromSpecImpl<Option<TxCodeModel>> for TxCode {
    open spec fn obeys_from_spec() -> bool {
        false
    }

    open spec fn from_spec(tx_code: Option<TxCodeModel>) -> TxCode {
        arbitrary()
    }
}

/// An issuance as it is shown.
#[derive(Clone, Debug, PartialEq, Eq)]
pub struct IssuanceView {
    /// The identifier of the issuer.
    pub issuer: String,
    /// The name of the issuer.
    pub issuer_name: String,
    /// The credential on offer.
    pub offered: Credential,
    /// The PIN that the issuer asks for.
    pub tx_code: TxCode,
}

/// The mathematical value of an [`IssuanceView`].
pub ghost struct IssuanceShown {
    pub issuer: Seq<char>,
    pub issuer_name: Seq<char>,
    pub offered: CredentialShown,
    pub tx_code: TxCodeShown,
}

impl View for IssuanceView {
    type V = IssuanceShown;

    open spec fn view(&self) -> IssuanceShown {
        IssuanceShown {
            issuer: self.issuer@,
            issuer_name: self.issuer_name@,
            offered: self.offered@,
            tx_code: self.tx_code@,
        }
    }
}

impl IssuanceShown {
    /// What is shown while no issuance is in progress.
    pub open spec fn none() -> IssuanceShown {
        IssuanceShown {
            issuer: Seq::empty(),
            issuer_name: Seq::empty(),
            offered: CredentialShown::empty(),
            tx_code: TxCodeShown::none(),
        }
    }

    /// How an issuance is shown for `locale`. Of an offer that has just
    /// been read the issuer and the PIN are shown; once the issuer's
    /// metadata has come in, also the name of the issuer and the first of
    /// the credentials on offer.
    pub open spec fn of_state(state: Option<IssuanceStateView>, locale: Option<Seq<char>>) -> IssuanceShown {
        match state {
            None => IssuanceShown::none(),
            Some(IssuanceStateView::Inactive) => IssuanceShown::none(),
            Some(IssuanceStateView::Offered { offer, grant }) => IssuanceShown {
                issuer: offer.credential_issuer,
                issuer_name: Seq::empty(),
                offered: CredentialShown::empty(),
                tx_code: TxCodeShown::of_model(grant.tx_code),
            },
            Some(state) => {
                let flow = state.flow()->Some_0;
                let offered = state.offered()->Some_0;
                IssuanceShown {
                    issuer: flow.offer.credential_issuer,
                    issuer_name: flow.issuer_name,
                    offered: if offered.len() > 0 {
                        CredentialShown::of_offer(
                            flow.offer.credential_issuer,
                            flow.issuer_name,
                            offered[0].1,
                            locale,
                        )
                    } else {
                        CredentialShown::empty()
                    },
                    tx_code: TxCodeShown::of_model(flow.grant.tx_code),
                }
            },
        }
    }
}

impl Default for IssuanceView {
    fn default() -> (shown: IssuanceView)
        ensures
            shown@ == IssuanceShown::none(),
    {
        IssuanceView {
            issuer: String::new(),
            issuer_name: String::new(),
            offered: Credential::empty(),
            tx_code: TxCode::default(),
        }
    }
}

impl IssuanceView {
    /// Shows an issuance, for `locale`.
    pub fn from_state(state: &Option<IssuanceState>, locale: &Option<String>) -> (shown: IssuanceView)
        ensures
            shown@ == IssuanceShown::of_state(
                optional_issuance_view(*state),
                optional_string_view(*locale),
            ),
    {
        let (flow, offered) = match state {
            None => {
                return IssuanceView::default();
            },
            Some(IssuanceState::Inactive) => {
                return IssuanceView::default();
            },
            Some(IssuanceState::Offered { offer, grant }) => {
                return IssuanceView {
                    issuer: offer.credential_issuer.clone(),
                    issuer_name: String::new(),
                    offered: Credential::empty(),
                    tx_code: TxCode::from_model(&grant.tx_code),
                };
            },
            Some(IssuanceState::IssuerMetadata { flow, offered }) => (flow, offered),
            Some(IssuanceState::Accepted { flow, offered }) => (flow, offered),
            Some(IssuanceState::Token { flow, offered }) => (flow, offered),
            Some(IssuanceState::Proof { flow, offered, .. }) => (flow, offered),
        };
        let credential = if offered.entries.len() > 0 {
            assert(offered@[0].1 == offered.entries@[0].1@);
            Credential::from_offered(
                flow.offer.credential_issuer.as_str(),
                flow.issuer_name.as_str(),
                &offered.entries[0].1,
                locale,
            )
        } else {
            Credential::empty()
        };
        IssuanceView {
            issuer: flow.offer.credential_issuer.clone(),
            issuer_name: flow.issuer_name.clone(),
            offered: credential,
            tx_code: TxCode::from_model(&flow.grant.tx_code),
        }
    }
}

impl From<Option<IssuanceState>> for IssuanceView {
    fn from(state: Option<IssuanceState>) -> (shown: IssuanceView)
        ensures
            shown@ == IssuanceShown::of_state(optional_issuance_view(state), None),
    {
        IssuanceView::from_state(&state, &None)
    }
}

impl FromSpecImpl<Option<IssuanceState>> for IssuanceView {
    open spec fn obeys_from_spec() -> bool {
        false
    }

    open spec fn from_spec(state: Option<IssuanceState>) -> IssuanceView {
        arbitrary()
    }
}

} // verus!
