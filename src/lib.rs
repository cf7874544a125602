//! Core of a small Linux container runtime: the container registry kept by
//! the daemon's state actor, address allocation, image path resolution,
//! container launch planning and log fan-out.

pub mod ipv4;
pub mod logs;
pub mod registry;
pub mod paths;
pub mod container;
pub mod namespaces;
pub mod storage;
pub mod network;
pub mod strings;
pub mod error;
