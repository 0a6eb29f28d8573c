//! Headless Zcash wallet rules: the decisions behind payments, sync, and recovery, each with a
//! machine-checked contract.

pub mod account_balance;
pub mod boundary_error;
pub mod boundary_laws;
pub mod capabilities;
pub mod circuit_breaker;
pub mod delivery_laws;
pub mod describe;
pub mod describe_laws;
pub mod disclosure;
pub mod domain;
pub mod error;
pub mod error_laws;
pub mod event;
pub mod exposed_address;
pub mod metrics;
pub mod outpoint_set;
pub mod payment;
pub mod payment_laws;
pub mod payment_uri;
pub mod pczt;
pub mod pending_transparent_inputs;
pub mod provisioning;
pub mod received_note;
pub mod refresh_laws;
pub mod reservation;
pub mod retry;
pub mod spend;
pub mod spend_flow;
pub mod spend_laws;
pub mod status;
pub mod sync;
pub mod text;
pub mod text_laws;
pub mod transparent_utxo_refresh;
pub mod unspent_note;
pub mod view_laws;
pub mod wallet;
pub mod wallet_options;
