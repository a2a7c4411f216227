//! The shim that containerd starts for a pod.

pub mod bundle;
pub mod info;
pub mod laws;
pub mod start;
pub mod task;
pub mod vm;
