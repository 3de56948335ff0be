//! State-transition logic of an attested-action record: which agent performed
//! which named action, and whether that action succeeded.
//!
//! * [`attestation`] holds the record, the contract state around it, the
//!   transition ([`AgentContract::apply`], [`AgentContract::execute`]) and the
//!   state's digest.
//! * [`action`] holds the actions that change the state and the blob that
//!   carries one to the contract.
//! * [`wire`] describes the byte layout of a text and of a flag, and holds the
//!   calls into the `borsh` crate that write and read them.
//! * [`laws`] proves what holds of all states and actions: the round trip
//!   through the encoding, that digests tell states apart, and how the
//!   transition treats the fields.
//!
//! The record and the actions have a canonical byte encoding (Borsh). Each
//! text and flag is written and read by `borsh`; the order of the fields, the
//! variant tags and the handling of the buffer are verified here against a
//! mathematical description of the format.

pub mod action;
pub mod attestation;
pub mod error;
pub mod laws;
pub mod wire;

pub use crate::action::{AgentAction, Blob};
pub use crate::attestation::{AgentActionAttestation, AgentContract, StateDigest};
pub use crate::error::{DecodeError, EncodeError};
