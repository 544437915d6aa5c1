//! Server-side rules of the Grand Casino slot-machine backend: the slot payout,
//! input validation, loan rules, account settlement, role resolution and the
//! mapping of errors to client responses.

pub mod config;
pub mod cors;
pub mod db;
pub mod error;
pub mod game;
pub mod identity;
pub mod kanidm;
pub mod models;
pub mod oidc;
pub mod rules;
pub mod text;
pub mod validate;
