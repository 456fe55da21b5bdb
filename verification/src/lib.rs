//! Core of an invite-gated passkey registration service: the invite
//! lifecycle, signing-key custody, audit trail, and the registration
//! ceremony, specified and verified over an explicit model of the
//! persistence and session collaborators.

pub mod admin;
pub mod audit_log;
pub mod ceremony;
pub mod clock;
pub mod db;
pub mod error;
pub mod extractors;
pub mod group;
pub mod invite_passkey;
pub mod passkey;
pub mod session;
pub mod signing_key;
pub mod sort;
pub mod user;
pub mod util;
pub mod webauthn;
