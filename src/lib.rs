//! The control plane of the connector manager: per-pod supervision of
//! Kubernetes pods that are leased to clients, with the state machines of the
//! event watcher, the health check and the garbage collector, the rendezvous
//! that hands the verdict to a waiting client, and the registry of pod managers.
pub mod config;
pub mod error;
pub mod event_watcher;
pub mod external_handle;
pub mod garbage_collector;
pub mod image_import;
pub mod image_registry;
pub mod json;
pub mod kind;
pub mod names;
pub mod pod;
pub mod pod_manager;
pub mod response;
pub mod server_check;
pub mod text;
