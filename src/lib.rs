//! A WebAuthn client and CTAP2 authenticator core: RP ID checks, client data,
//! authenticator data, the credential store and the user-validation contract.

pub mod attestation;
pub mod auth_data;
pub mod authenticator;
pub mod client;
pub mod client_data;
pub mod rp_id;
pub mod store;
pub mod types;
pub mod user_validation;
