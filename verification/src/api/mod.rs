//! The operations of the service, each as a chain of phases.

pub mod finalize;
pub mod health;
pub mod realtime;
pub mod reply;
pub mod upload;
