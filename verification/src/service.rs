//! The handlers of the service: health checks and welcome messages.

pub mod health;
pub mod home;
