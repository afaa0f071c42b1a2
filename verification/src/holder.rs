//! The holder's side of credential issuance: offers, issuer metadata and
//! the credentials that the wallet keeps.

pub mod credential;
pub mod metadata;
pub mod offer;
pub mod request;
