//! The protocol core of an authorization server: OAuth 2.1 authorization
//! code flow with PKCE, pushed authorization requests, an explicit consent
//! step, token issuance with refresh rotation, and userinfo.
//!
//! The operations live in `use_cases`, each cut into steps at the points
//! where it needs a store, the vault or the identity provider. `stores` and
//! `vault` hold those in memory; `laws` states what holds across steps.
pub mod api_error;
pub mod api_response;
pub mod domain;
pub mod dto;
pub mod entropy;
pub mod gateway;
pub mod hasher;
pub mod ident;
pub mod laws;
pub mod spi;
pub mod stores;
pub mod text;
pub mod token;
pub mod use_cases;
pub mod vault;
