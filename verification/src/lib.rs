//! Web-Bluetooth-style device discovery: filter evaluation, stable device
//! identities, adapter selection and the discovery session, written so that an
//! asynchronous driver performs the radio work and reports back what happened.

pub mod bluetooth;
pub mod error;
pub mod models;
