//! Reconciliation core of an ingress extension: it turns a routing
//! specification and the identity of its owner into the desired state of a
//! dependent networking resource, and merges that state into whatever the
//! cluster already stores.

pub mod config;
pub mod ingress;
pub mod laws;
pub mod reconcile;
pub mod resource;
pub mod server;
pub mod string_map;
