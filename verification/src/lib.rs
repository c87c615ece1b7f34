//! Verified transaction, receipt and policy logic of the RadishLex input system.

pub mod text;
pub mod install_product;
pub mod install_artifact;
pub mod install_receipt;
pub mod install_gate;
pub mod upgrade_receipt;
pub mod runtime_context;
pub mod upgrade_store;
pub mod upgrade_gate;
pub mod upgrade_switch;
pub mod upgrade_coordinator;
pub mod install_switch;
pub mod install_finalization;
pub mod sync_model;
pub mod ranker_model;
pub mod upgrade_steps;
pub mod fs_objects;
