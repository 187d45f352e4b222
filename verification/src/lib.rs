//! Transaction-admission checking for envelopes that may carry either a
//! classical account signature or a call with its own embedded ("self
//! contained") authorization scheme.
//!
//! The checking engine reconciles the two authorization subsystems into a
//! single dispatch-ready record, rejecting anything that cannot be
//! unambiguously authorized — in particular an envelope that carries both
//! classical signed data and a self-contained call.

pub mod checked_extrinsic;
pub mod codec;
pub mod error;
pub mod laws;
pub mod model;
pub mod traits;
pub mod unchecked_extrinsic;
