//! A gRPC status that HTTP middleware can return as its error.
use vstd::prelude::*;

use core::ops::{Deref, DerefMut};
use vstd::std_specs::convert::FromSpecImpl;

verus! {

/// `tonic::Status`, opaque here: it is carried, never looked into.
#[verifier::external_type_specification]
#[verifier::external_body]
pub struct ExStatus(tonic::Status);

/// A thin wrapper around a `tonic::Status`, usable as the error of axum
/// middleware: it answers the request with the wrapped status.
#[derive(Debug)]
pub struct GrpcStatus(pub tonic::Status);

impl From<tonic::Status> for GrpcStatus {
    fn from(s: tonic::Status) -> (r: Self)
        ensures
            r.0 == s,
    {
        GrpcStatus(s)
    }
}

impl FromSpecImpl<tonic::Status> for GrpcStatus {
    open spec fn obeys_from_spec() -> bool {
        true
    }

    open spec fn from_spec(v: tonic::Status) -> GrpcStatus {
        GrpcStatus(v)
    }
}

impl Deref for GrpcStatus {
    type Target = tonic::Status;

    fn deref(&self) -> (r: &tonic::Status)
        ensures
            *r == self.0,
    {
        &self.0
    }
}

impl DerefMut for GrpcStatus {
    fn deref_mut(&mut self) -> (r: &mut tonic::Status)
        ensures
            *r == old(self).0,
            final(self).0 == *final(r),
    {
        &mut self.0
    }
}

} // verus!
