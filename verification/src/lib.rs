//! The decision logic of a single-node sandbox runtime: each sandbox is one
//! microVM with its own network namespace, disk jail and address lease.

pub mod config;
pub mod cri;
pub mod ctrd;
pub mod driver;
pub mod layout;
pub mod manager;
pub mod mock;
pub mod model;
pub mod net;
pub mod storage;
pub mod store;
pub mod strmap;
pub mod text;
pub mod types;
