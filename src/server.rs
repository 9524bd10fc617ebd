//! A bare extension service that implements no operation.

use vstd::prelude::*;

use crate::reconcile::{StatusCode, SyncError};

verus! {

/// A bare extension service: it answers every operation as not
/// implemented, so that no call hangs.
#[derive(Debug, Clone, Copy, PartialEq, Eq, Structural)]
pub struct Ingress {}

impl Default for Ingress {
    fn default() -> (r: Ingress)
        ensures
            r == (Ingress {}),
    {
        Ingress {}
    }
}

/// The message of the bare service's answer.
pub const NOT_IMPLEMENTED: &'static str = "not implemented";

impl Ingress {
    /// The answer to any operation.
    pub fn answer(&self) -> (r: SyncError)
        ensures
            r.code == StatusCode::Unimplemented,
            r.message@ == NOT_IMPLEMENTED@,
    {
        SyncError { code: StatusCode::Unimplemented, message: NOT_IMPLEMENTED.to_owned() }
    }
}

} // verus!
