//! Frame codec: pure construction of the fixed binary wire frames.
//!
//! Two frame shapes exist and are kept as distinct code paths:
//! - the generic shape, `preamble (16 bytes) ++ keyword ++ control (3 bytes)
//!   ++ payload`, used for open, close and ordinary command frames;
//! - the authentication shape, an 8-byte prefix whose last three bytes are
//!   the channel's control bytes, followed directly by the JSON payload.
//!
//! The preamble and prefix bytes are vendor-fixed constants of the wire
//! format, reproduced byte for byte and never recomputed.

use vstd::prelude::*;
use crate::error::ViperError;

verus! {

/// Byte length of the generic frame preamble.
pub const PREAMBLE_LEN: usize = 16;
/// Byte length of the authentication prefix, its control bytes included.
pub const AUTH_PREFIX_LEN: usize = 8;
/// Byte length of the constant head of the authentication prefix.
pub const AUTH_HEAD_LEN: usize = 5;
/// Byte width of a channel command keyword on the wire.
pub const KEYWORD_LEN: usize = 4;
/// Number of control bytes in a frame: two selector bytes, one operation byte.
pub const CONTROL_LEN: usize = 3;

/// The vendor-fixed preamble that every generic-shape frame starts with.
pub open spec fn generic_preamble() -> Seq<u8> {
    seq![
        0x00u8, 0x06, 0x20, 0x00, 0xab, 0xcd, 0x00, 0x01,
        0x10, 0x00, 0x00, 0x20, 0x00, 0x00, 0x00, 0x00,
    ]
}

/// The constant head of the authentication prefix; the channel's three
/// control bytes complete the 8-byte prefix.
pub open spec fn auth_prefix_head() -> Seq<u8> {
    seq![0x00u8, 0x06, 0x6a, 0x00, 0xe0]
}

/// A wire keyword: exactly `KEYWORD_LEN` bytes, each ASCII.
pub open spec fn keyword_ok(kw: Seq<u8>) -> bool {
    &&& kw.len() == KEYWORD_LEN
    &&& forall|i: int| 0 <= i < kw.len() ==> kw[i] < 0x80
}

/// The bytes of a generic-shape frame.
pub open spec fn spec_generic_frame(kw: Seq<u8>, ctl: Seq<u8>, payload: Seq<u8>) -> Seq<u8> {
    generic_preamble() + kw + ctl + payload
}

/// The bytes of an authentication-shape frame.
pub open spec fn spec_auth_frame(ctl: Seq<u8>, payload: Seq<u8>) -> Seq<u8> {
    auth_prefix_head() + ctl + payload
}

/// The generic preamble as a byte vector.
pub fn generic_preamble_bytes() -> (r: Vec<u8>)
    ensures
        r@ == generic_preamble(),
{
    let mut v: Vec<u8> = Vec::new();
    v.push(0x00u8);
    v.push(0x06u8);
    v.push(0x20u8);
    v.push(0x00u8);
    v.push(0xabu8);
    v.push(0xcdu8);
    v.push(0x00u8);
    v.push(0x01u8);
    v.push(0x10u8);
    v.push(0x00u8);
    v.push(0x00u8);
    v.push(0x20u8);
    v.push(0x00u8);
    v.push(0x00u8);
    v.push(0x00u8);
    v.push(0x00u8);
    proof {
        assert(v@ =~= generic_preamble());
    }
    v
}

/// The constant head of the authentication prefix as a byte vector.
pub fn auth_prefix_head_bytes() -> (r: Vec<u8>)
    ensures
        r@ == auth_prefix_head(),
{
    let mut v: Vec<u8> = Vec::new();
    v.push(0x00u8);
    v.push(0x06u8);
    v.push(0x6au8);
    v.push(0x00u8);
    v.push(0xe0u8);
    proof {
        assert(v@ =~= auth_prefix_head());
    }
    v
}

/// Decides whether a keyword fits the wire format.
pub fn check_keyword(kw: &[u8]) -> (r: bool)
    ensures
        r == keyword_ok(kw@),
{
    if kw.len() != KEYWORD_LEN {
        return false;
    }
    let mut i: usize = 0;
    while i < kw.len()
        invariant
            i <= kw@.len(),
            kw@.len() == KEYWORD_LEN,
            forall|j: int| 0 <= j < i ==> kw@[j] < 0x80,
        decreases kw@.len() - i,
    {
        if kw[i] >= 0x80 {
            return false;
        }
        i = i + 1;
    }
    true
}

/// Builds a generic-shape frame. A keyword that does not fit the protocol's
/// expected byte width, or is not ASCII, is rejected rather than truncated.
pub fn build_generic_frame(kw: &[u8], ctl0: u8, ctl1: u8, ctl2: u8, payload: &[u8]) -> (r: Result<
    Vec<u8>,
    ViperError,
>)
    ensures
        r is Ok <==> keyword_ok(kw@),
        r is Ok ==> r->Ok_0@ == spec_generic_frame(kw@, seq![ctl0, ctl1, ctl2], payload@),
        r is Err ==> r == Err::<Vec<u8>, ViperError>(ViperError::EncodingError),
{
    if !check_keyword(kw) {
        return Err(ViperError::EncodingError);
    }
    let mut f = generic_preamble_bytes();
    f.extend_from_slice(kw);
    f.push(ctl0);
    f.push(ctl1);
    f.push(ctl2);
    f.extend_from_slice(payload);
    proof {
        assert(f@ =~= spec_generic_frame(kw@, seq![ctl0, ctl1, ctl2], payload@));
    }
    Ok(f)
}

/// Builds an authentication-shape frame: the 8-byte prefix embedding the
/// channel's control bytes, followed by the payload.
pub fn build_auth_frame(ctl0: u8, ctl1: u8, ctl2: u8, payload: &[u8]) -> (f: Vec<u8>)
    ensures
        f@ == spec_auth_frame(seq![ctl0, ctl1, ctl2], payload@),
{
    let mut f = auth_prefix_head_bytes();
    f.push(ctl0);
    f.push(ctl1);
    f.push(ctl2);
    f.extend_from_slice(payload);
    proof {
        assert(f@ =~= spec_auth_frame(seq![ctl0, ctl1, ctl2], payload@));
    }
    f
}

/// Law: a generic-shape frame always begins with the exact constant preamble.
pub proof fn lemma_generic_frame_preamble(kw: Seq<u8>, ctl: Seq<u8>, payload: Seq<u8>)
    ensures
        spec_generic_frame(kw, ctl, payload).len() >= PREAMBLE_LEN,
        spec_generic_frame(kw, ctl, payload).subrange(0, PREAMBLE_LEN as int)
            == generic_preamble(),
{
    assert(spec_generic_frame(kw, ctl, payload).subrange(0, PREAMBLE_LEN as int)
        =~= generic_preamble());
}

/// Law: an authentication-shape frame always begins with the exact constant
/// prefix head, and carries the control bytes right after it.
pub proof fn lemma_auth_frame_prefix(ctl: Seq<u8>, payload: Seq<u8>)
    requires
        ctl.len() == CONTROL_LEN,
    ensures
        spec_auth_frame(ctl, payload).len() >= AUTH_PREFIX_LEN,
        spec_auth_frame(ctl, payload).subrange(0, AUTH_HEAD_LEN as int) == auth_prefix_head(),
        spec_auth_frame(ctl, payload).subrange(AUTH_HEAD_LEN as int, AUTH_PREFIX_LEN as int)
            == ctl,
{
    assert(spec_auth_frame(ctl, payload).subrange(0, AUTH_HEAD_LEN as int)
        =~= auth_prefix_head());
    assert(spec_auth_frame(ctl, payload).subrange(AUTH_HEAD_LEN as int, AUTH_PREFIX_LEN as int)
        =~= ctl);
}

} // verus!
