//! What the service answers: an HTTP status and a status record.

use vstd::prelude::*;
use vstd::string::*;

verus! {

pub const STATUS_OK: u16 = 200;

pub const STATUS_BAD_REQUEST: u16 = 400;

pub const STATUS_SERVER_ERROR: u16 = 500;

/// The status record of one request.
#[derive(Clone, Debug, PartialEq, Eq)]
pub struct ImageProcessingResponse {
    pub success: bool,
    pub message: String,
    pub original_filename: String,
    pub processed_filename: Option<String>,
}

/// An HTTP status with the record sent in the body.
#[derive(Clone, Debug, PartialEq, Eq)]
pub struct Reply {
    pub status: u16,
    pub body: ImageProcessingResponse,
}

/// A text made of a fixed prefix and a variable part.
pub fn prefixed(prefix: &str, rest: &str) -> (r: String)
    ensures
        r@ == prefix@ + rest@,
{
    let mut r = prefix.to_owned();
    r.append(rest);
    r
}

/// A failed request.
pub fn failure(status: u16, message: String, original_filename: String) -> (r: Reply)
    ensures
        r.status == status,
        !r.body.success,
        r.body.message == message,
        r.body.original_filename == original_filename,
        r.body.processed_filename is None,
{
    Reply {
        status,
        body: ImageProcessingResponse {
            success: false,
            message,
            original_filename,
            processed_filename: None,
        },
    }
}

} // verus!
