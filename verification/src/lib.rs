//! A minimal abstraction layer for turning a serialized model file into a
//! stored inference session, with an explicit choice of acceleration backend.
//!
//! The crate has one design center: the [`owner::OrtBase`] capability trait.
//! A concrete type that can store and report one optional session handle gets
//! a uniform `load_model` procedure for free, together with a diagnostic
//! report of the loaded model's tensor names. Backend selection is an
//! explicit, inspectable value ([`providers::Backend`]) resolved to an ordered
//! provider set by a pure function, not a runtime negotiation.

pub mod errors;
pub mod owner;
pub mod providers;
pub mod runtime;
pub mod session;
