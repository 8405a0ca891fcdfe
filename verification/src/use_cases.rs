//! The protocol operations. Each is cut at the points where it needs the
//! outside world (a store, the vault, the identity provider): a step takes
//! what came back and says what to ask next, or how the operation ends.
pub mod authorize;
pub mod authorize_continue;
pub mod consent_confirm;
pub mod consent_info;
pub mod par;
pub mod token_authorization_code;
pub mod token_refresh;
pub mod userinfo;
