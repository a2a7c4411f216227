//! The container runtime interface: messages, what they mean, and what is
//! answered to them.

pub mod convert;
pub mod error;
pub mod image_svc;
pub mod laws;
pub mod pb;
pub mod runtime_svc;
