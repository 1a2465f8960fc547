//! Response parsing: a raw device reply is a fixed-capacity buffer filled by
//! a single read; a reply that carries JSON carries it in a fixed byte window
//! whose offset is a protocol constant established from device traces — no
//! length field of the response is interpreted. The window offsets are named
//! per-command schemas so a length-aware parser could replace them without
//! touching call sites.

use vstd::prelude::*;
use vstd::slice::slice_subrange;
use vstd::utf8::decode_utf8;
use vstd::utf8::valid_utf8;
use crate::encoding::bytes_as_utf8;
use crate::error::ViperError;

verus! {

/// Capacity of the buffer a single read fills.
pub const RESPONSE_CAPACITY: usize = 256;
/// Offset at which the JSON payload of an authentication reply starts.
pub const JSON_OFFSET: usize = 8;

/// One raw device reply: a buffer of `RESPONSE_CAPACITY` bytes filled by a
/// single read. Only the first `filled` bytes are meaningful; the tail is
/// stale or zero.
pub struct RawResponse {
    /// The whole buffer handed to the read.
    pub data: Vec<u8>,
    /// How many bytes the read produced.
    pub filled: usize,
}

impl RawResponse {
    /// The buffer has its fixed capacity and the meaningful count fits it.
    pub open spec fn wf(self) -> bool {
        &&& self.data@.len() == RESPONSE_CAPACITY
        &&& self.filled <= RESPONSE_CAPACITY
    }

    /// The meaningful bytes of the reply.
    pub open spec fn meaningful(self) -> Seq<u8> {
        self.data@.subrange(0, self.filled as int)
    }

    /// Wraps one read's buffer and byte count; anything but a full-capacity
    /// buffer with a fitting count is rejected as malformed.
    pub fn new(data: Vec<u8>, filled: usize) -> (r: Result<RawResponse, ViperError>)
        ensures
            r is Ok <==> (data@.len() == RESPONSE_CAPACITY && filled <= RESPONSE_CAPACITY),
            r matches Ok(resp) ==> resp.wf() && resp.data@ == data@ && resp.filled == filled,
            r is Err ==> r == Err::<RawResponse, ViperError>(ViperError::MalformedResponse),
    {
        if data.len() == RESPONSE_CAPACITY && filled <= RESPONSE_CAPACITY {
            Ok(RawResponse { data, filled })
        } else {
            Err(ViperError::MalformedResponse)
        }
    }
}

/// Where a command's JSON payload sits inside a raw reply: a fixed window
/// from `start` to the reply's meaningful end.
pub struct ResponseSchema {
    /// First byte of the JSON window.
    pub start: usize,
}

/// The schema of an authentication reply: JSON starting at byte 8.
pub fn auth_schema() -> (s: ResponseSchema)
    ensures
        s.start == JSON_OFFSET,
{
    ResponseSchema { start: JSON_OFFSET }
}

/// The designated byte window of a reply under a schema.
pub open spec fn spec_window(resp: RawResponse, start: int) -> Seq<u8> {
    resp.data@.subrange(start, resp.filled as int)
}

#[verifier::external_type_specification]
#[verifier::external_body]
pub struct ExJsonValue(serde_json::Value);

/// Whether a character sequence is one well-formed JSON document, as
/// serde_json's parser decides it; the answer depends on the characters
/// alone.
pub uninterp spec fn json_ok(s: Seq<char>) -> bool;

/// Relies on serde_json::from_str::<Value>: it returns a parsed value exactly
/// when the input text is one well-formed JSON document.
#[verifier::external_body]
fn parse_json_str(s: &str) -> (r: Option<serde_json::Value>)
    ensures
        r is Some <==> json_ok(s@),
{
    serde_json::from_str::<serde_json::Value>(s).ok()
}

/// Extracts the JSON payload from a reply's designated window. The window
/// must be valid UTF-8 and parse as one JSON document; otherwise the reply is
/// malformed, and nothing is parsed out of an invalid window.
pub fn extract_json_at(resp: &RawResponse, schema: &ResponseSchema) -> (r: Result<
    serde_json::Value,
    ViperError,
>)
    requires
        resp.wf(),
    ensures
        resp.filled < schema.start ==> r == Err::<serde_json::Value, ViperError>(
            ViperError::MalformedResponse,
        ),
        schema.start <= resp.filled ==> {
            let win = spec_window(*resp, schema.start as int);
            &&& (r is Ok <==> valid_utf8(win) && json_ok(decode_utf8(win)))
            &&& (r is Err ==> r == Err::<serde_json::Value, ViperError>(
                ViperError::MalformedResponse,
            ))
        },
{
    if resp.filled < schema.start {
        return Err(ViperError::MalformedResponse);
    }
    let win = slice_subrange(resp.data.as_slice(), schema.start, resp.filled);
    match bytes_as_utf8(win) {
        None => Err(ViperError::MalformedResponse),
        Some(text) => match parse_json_str(text) {
            None => Err(ViperError::MalformedResponse),
            Some(v) => Ok(v),
        },
    }
}

/// Extracts the JSON payload of an authentication reply: the window starting
/// at the fixed offset 8.
pub fn extract_json(resp: &RawResponse) -> (r: Result<serde_json::Value, ViperError>)
    requires
        resp.wf(),
    ensures
        resp.filled < JSON_OFFSET ==> r == Err::<serde_json::Value, ViperError>(
            ViperError::MalformedResponse,
        ),
        JSON_OFFSET <= resp.filled ==> {
            let win = spec_window(*resp, JSON_OFFSET as int);
            &&& (r is Ok <==> valid_utf8(win) && json_ok(decode_utf8(win)))
            &&& (r is Err ==> r == Err::<serde_json::Value, ViperError>(
                ViperError::MalformedResponse,
            ))
        },
{
    let schema = auth_schema();
    extract_json_at(resp, &schema)
}

} // verus!
