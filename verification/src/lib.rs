//! The core of a credential wallet.
//!
//! The core takes in a credential offer, gets from the issuer an access
//! token and the credentials on offer, asks the holder for a PIN where the
//! issuer wants one, keeps what was issued, and says what is to be shown.
//! It does no work outside itself: an update turns an event and the model
//! into the next model and the effects that the host shell is to carry out,
//! and the result of each effect comes back as an event.
//!
//! - [`app`]: events, effects and the update.
//! - [`bridge`]: the requests that are open at the shell, and their answers.
//! - [`model`]: the state of the wallet, with the flow of an issuance.
//! - [`view`]: what is shown of the state, with the labels of the claims.
//! - [`capabilities`]: the requests to the store and the key store.
//! - [`provider`]: the requests to the services of issuer and verifier.
//! - [`holder`]: offers, issuer metadata and credentials, and their JSON.
//! - [`json`], [`text`]: values and text that the rest is made of.
//! - [`laws`]: what holds of all this, whatever comes in.

pub mod app;
pub mod bridge;
pub mod capabilities;
pub mod config;
pub mod holder;
pub mod json;
pub mod laws;
pub mod model;
pub mod provider;
pub mod text;
pub mod view;
