//! Core logic of a wallet bridge: transaction submission with deploy-before-
//! transfer handling, wallet-subscription refresh with observer events, and a
//! session task registry with guaranteed cancellation on teardown.
//!
//! Network transport, key storage and the host callback channel are external
//! collaborators: the library models their data as plain values and states the
//! decision logic over them, so an unverified driver can perform the actual
//! I/O while every decision is made here, under contract.

pub mod address;
pub mod comment;
pub mod errors;
pub mod hexcodec;
pub mod keys;
pub mod models;
pub mod port;
pub mod request;
pub mod signer;
pub mod storage;
pub mod submit;
pub mod subscription;
pub mod tasks;

use vstd::prelude::*;

verus! {

/// Marker owned by the host for the lifetime of the process; the driver
/// creates it once, after initializing its logging and runtime.
pub struct Runtime {}

impl Runtime {
    pub fn new() -> Runtime {
        Runtime {}
    }
}

} // verus!
