//! Control-plane core of a media connection-management node.
//!
//! The library holds the rules of the node as verified functions on plain
//! values: the activation of staged endpoints (`activation`), the coordination
//! of immediate activations on the shared store (`store`, `coordinator`), the
//! serving of resources at older API versions (`downgrade`), and what the API
//! layer decides about requests and responses (`api`, `html`, `elements`,
//! `capabilities`, `certificates`, `pem`, `server`). Locks, clocks, sockets
//! and files belong to the program around it.

pub mod text;
pub mod keyed;
pub mod api_version;
pub mod types;
pub mod colorspace;
pub mod tai;
pub mod document;
pub mod resource;
pub mod activation;
pub mod store;
pub mod coordinator;
pub mod downgrade;
pub mod capabilities;
pub mod elements;
pub mod html;
pub mod api;
pub mod certificates;
pub mod pem;
pub mod server;
