//! The display model: what the shell shows of the state of the wallet.

pub mod claims;
pub mod credential;
pub mod issuance;

use crate::app::Aspect;
use crate::json::optional_string_view;
use crate::model::{Model, ModelView};
use crate::view::credential::{text_or_empty, CredentialView, CredentialsShown};
use crate::view::issuance::{IssuanceShown, IssuanceView};
use vstd::prelude::*;

verus! {

/// What the shell shows of the wallet.
#[derive(Clone, Debug, Default, PartialEq, Eq)]
pub struct ViewModel {
    /// The part of the application that is shown.
    pub active_view: Aspect,
    /// The credentials part.
    pub credential_view: CredentialView,
    /// The issuance part.
    pub issuance_view: IssuanceView,
    /// The error to show; empty where there is none.
    pub error: String,
}

/// The mathematical value of a [`ViewModel`].
pub ghost struct Shown {
    pub active_view: Aspect,
    pub credential_view: CredentialsShown,
    pub issuance_view: IssuanceShown,
    pub error: Seq<char>,
}

impl View for ViewModel {
    type V = Shown;

    open spec fn view(&self) -> Shown {
        Shown {
            active_view: self.active_view,
            credential_view: self.credential_view@,
            issuance_view: self.issuance_view@,
            error: self.error@,
        }
    }
}

impl Shown {
    /// What is shown of a model for `locale`: the part that is active, the
    /// credentials and the issuance as they are shown, and the error.
    pub open spec fn of_model(model: ModelView, locale: Option<Seq<char>>) -> Shown {
        Shown {
            active_view: model.active_view,
            credential_view: CredentialsShown::of_state(model.credential, locale),
            issuance_view: IssuanceShown::of_state(model.issuance, locale),
            error: text_or_empty(model.error),
        }
    }
}

impl ViewModel {
    /// Shows a model, for `locale`.
    pub fn from_model(model: &Model, locale: &Option<String>) -> (shown: ViewModel)
        ensures
            shown@ == Shown::of_model(model@, optional_string_view(*locale)),
    {
        ViewModel {
            active_view: model.active_view,
            credential_view: CredentialView::from_state(&model.credential, locale),
            issuance_view: IssuanceView::from_state(&model.issuance, locale),
            error: match &model.error {
                Some(error) => error.clone(),
                None => String::new(),
            },
        }
    }
}

} // verus!
