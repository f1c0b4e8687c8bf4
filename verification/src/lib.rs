//! Verified core of a small cluster of virtual actors: node configuration,
//! actor placement, actor activation decisions, persistent actor state and the
//! on-disk encoding of node state.

pub mod actor_registry;
pub mod app_config;
pub mod cluster_nodes_config;
pub mod counter;
pub mod errors;
pub mod housekeeping;
pub mod node_config;
pub mod node_item;
pub mod node_storage;
pub mod nodes_registry;
pub mod persistence;
pub mod table;
pub mod text;
pub mod transport;
pub mod virtual_actor;
pub mod virtual_registry;
