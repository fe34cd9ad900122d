use vstd::prelude::*;

verus! {

/// The gRPC status codes that the services answer with.
#[derive(Clone, Copy, Debug, PartialEq, Eq, Structural)]
pub enum Code {
    Internal,
    Unauthenticated,
}

/// An error answer of a service: a status code and a human-readable message.
#[derive(Debug)]
pub struct Status {
    pub code: Code,
    pub message: String,
}

impl Status {
    /// A status with code `Unauthenticated` and the given message.
    pub fn unauthenticated(message: &str) -> (s: Status)
        ensures
            s.code == Code::Unauthenticated,
            s.message@ == message@,
    {
        Status { code: Code::Unauthenticated, message: message.to_string() }
    }

    /// A status with code `Internal` and the given message.
    pub fn internal(message: &str) -> (s: Status)
        ensures
            s.code == Code::Internal,
            s.message@ == message@,
    {
        Status { code: Code::Internal, message: message.to_string() }
    }
}

} // verus!
