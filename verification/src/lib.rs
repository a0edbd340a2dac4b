//! Core of a transaction-approval workflow: it reconciles two transaction
//! snapshots, renders each new transaction as a notification whose controls
//! carry an action token, authenticates inbound webhook requests by an
//! ed25519 signature, classifies them, and turns an approval decision into a
//! ledger expense together with the retirement of the originating message.

pub mod auth;
pub mod codec;
pub mod inbound;
pub mod model;
pub mod reconcile;
pub mod render;
pub mod workflow;
