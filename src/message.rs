use std::time::Duration;
use vstd::prelude::*;

verus! {

/// A method address: the resource locator that clients target with requests.
pub struct UUri {
    pub path: String,
}

impl Clone for UUri {
    fn clone(&self) -> (r: Self)
        ensures
            r == *self,
    {
        UUri { path: self.path.clone() }
    }
}

/// Outcome codes carried by statuses and responses.
#[derive(Clone, Copy, Debug, PartialEq, Eq, Structural)]
pub enum UCode {
    OK,
    InvalidArgument,
    AlreadyExists,
    Internal,
    Unavailable,
}

/// The status of an operation: success or the reason it failed.
#[derive(Clone, Copy, Debug, PartialEq, Eq, Structural)]
pub struct UStatus {
    pub code: UCode,
}

impl UStatus {
    pub fn ok() -> (r: UStatus)
        ensures
            r.code == UCode::OK,
    {
        UStatus { code: UCode::OK }
    }

    pub fn fail(code: UCode) -> (r: UStatus)
        ensures
            r.code == code,
    {
        UStatus { code }
    }

    pub fn is_ok(&self) -> (r: bool)
        ensures
            r == (self.code == UCode::OK),
    {
        self.code == UCode::OK
    }
}

/// How the bytes of a payload are to be read. `Unspecified` stands for "no payload".
#[derive(Clone, Copy, Debug, PartialEq, Eq, Structural)]
pub enum UPayloadFormat {
    Unspecified,
    Protobuf,
    Json,
    Raw,
    Text,
}

/// Opaque payload bytes tagged with their format.
pub struct UPayload {
    pub format: UPayloadFormat,
    pub data: Vec<u8>,
}

#[derive(Clone, Copy, Debug, PartialEq, Eq, Structural)]
pub enum UMessageType {
    Request,
    Response,
}

/// A message. A response carries the `id` of the request it answers and is
/// addressed to that request's `source`.
pub struct UMessage {
    pub kind: UMessageType,
    pub id: u64,
    pub source: UUri,
    pub sink: UUri,
    pub ttl: Option<Duration>,
    pub commstatus: UCode,
    pub payload: Option<UPayload>,
}

/// A transport-issued token for one listener registration.
#[derive(Clone, Copy, Debug, PartialEq, Eq, Structural)]
pub struct ListenHandle {
    pub id: usize,
}

} // verus!
