//! Channels: named logical sub-protocols layered over the shared frame
//! format. A channel owns no connection state; it is a pure frame factory
//! bound to a keyword and a pair of selector bytes, issued an open frame,
//! zero or more command frames, and a close frame before being dropped.
//!
//! The third control byte of each frame discriminates the operation the
//! frame performs on the channel.

use vstd::prelude::*;
use vstd::slice::slice_to_vec;
use vstd::utf8::encode_utf8;
use crate::command::CommandKind;
use crate::command::TemplateStore;
use crate::command::render;
use crate::command::spec_render_auth;
use crate::error::ViperError;
use crate::frame::build_auth_frame;
use crate::frame::build_generic_frame;
use crate::frame::check_keyword;
use crate::frame::keyword_ok;
use crate::frame::spec_auth_frame;
use crate::frame::spec_generic_frame;

verus! {

/// Operation byte of an open frame.
pub const OP_OPEN: u8 = 0x01;
/// Operation byte of a command frame.
pub const OP_COMMAND: u8 = 0x02;
/// Operation byte of a close frame.
pub const OP_CLOSE: u8 = 0x03;

/// The wire keyword of the actuator-control channel, the bytes of `CTPP`.
pub open spec fn ctpp_keyword() -> Seq<u8> {
    seq![0x43u8, 0x54, 0x50, 0x50]
}

/// The actuator-control keyword as a byte vector.
pub fn ctpp_keyword_bytes() -> (r: Vec<u8>)
    ensures
        r@ == ctpp_keyword(),
{
    let mut v: Vec<u8> = Vec::new();
    v.push(0x43u8);
    v.push(0x54u8);
    v.push(0x50u8);
    v.push(0x50u8);
    proof {
        assert(v@ =~= ctpp_keyword());
    }
    v
}

/// A channel: a keyword plus the two selector bytes the session assigned it.
pub struct Channel {
    /// The ASCII command keyword the channel is bound to.
    pub kw: Vec<u8>,
    /// Low selector byte.
    pub id0: u8,
    /// High selector byte.
    pub id1: u8,
}

impl Channel {
    /// A channel is well-formed when its keyword fits the wire format.
    pub open spec fn wf(self) -> bool {
        keyword_ok(self.kw@)
    }

    /// The three control bytes of a frame carrying operation `op`.
    pub open spec fn ctl(self, op: u8) -> Seq<u8> {
        seq![self.id0, self.id1, op]
    }

    /// The bytes of this channel's open frame.
    pub open spec fn spec_open_frame(self) -> Seq<u8> {
        spec_generic_frame(self.kw@, self.ctl(OP_OPEN), Seq::empty())
    }

    /// The bytes of this channel's close frame.
    pub open spec fn spec_close_frame(self) -> Seq<u8> {
        spec_generic_frame(self.kw@, self.ctl(OP_CLOSE), Seq::empty())
    }

    /// The bytes of a generic-shape frame carrying `op` and the given payload.
    pub open spec fn spec_frame_with_op(self, op: u8, payload: Seq<u8>) -> Seq<u8> {
        spec_generic_frame(self.kw@, self.ctl(op), payload)
    }

    /// The bytes of a generic-shape command frame with the given payload.
    pub open spec fn spec_com_frame(self, payload: Seq<u8>) -> Seq<u8> {
        spec_generic_frame(self.kw@, self.ctl(OP_COMMAND), payload)
    }

    /// The bytes of an authentication-shape command frame with the given
    /// payload.
    pub open spec fn spec_auth_com_frame(self, payload: Seq<u8>) -> Seq<u8> {
        spec_auth_frame(self.ctl(OP_COMMAND), payload)
    }

    /// Binds a channel to a keyword and selector bytes; a keyword that does
    /// not fit the wire format is rejected.
    pub fn new(kw: &str, id0: u8, id1: u8) -> (r: Result<Channel, ViperError>)
        ensures
            r is Ok <==> keyword_ok(encode_utf8(kw@)),
            r matches Ok(c) ==> c.wf() && c.kw@ == encode_utf8(kw@) && c.id0 == id0 && c.id1
                == id1,
            r is Err ==> r == Err::<Channel, ViperError>(ViperError::EncodingError),
    {
        let bytes = kw.as_bytes();
        if check_keyword(bytes) {
            Ok(Channel { kw: slice_to_vec(bytes), id0, id1 })
        } else {
            Err(ViperError::EncodingError)
        }
    }

    /// Renders this channel's open frame.
    pub fn open(&self) -> (f: Vec<u8>)
        requires
            self.wf(),
        ensures
            f@ == self.spec_open_frame(),
    {
        let empty: Vec<u8> = Vec::new();
        build_generic_checked(self.kw.as_slice(), self.id0, self.id1, OP_OPEN, empty.as_slice())
    }

    /// Renders this channel's close frame.
    pub fn close(&self) -> (f: Vec<u8>)
        requires
            self.wf(),
        ensures
            f@ == self.spec_close_frame(),
    {
        let empty: Vec<u8> = Vec::new();
        build_generic_checked(self.kw.as_slice(), self.id0, self.id1, OP_CLOSE, empty.as_slice())
    }

    /// Renders a command frame on this channel. The authentication command
    /// uses the specialized 8-byte prefix shape, because its payload is JSON;
    /// every other command uses the generic shape. A rendering failure is
    /// surfaced unchanged.
    pub fn com(&self, cmd: &CommandKind, store: &TemplateStore) -> (r: Result<Vec<u8>, ViperError>)
        requires
            self.wf(),
        ensures
            cmd matches CommandKind::UAUT(tok) ==> (match spec_render_auth(
                store.view_template(),
                encode_utf8(tok@),
            ) {
                Ok(p) => r matches Ok(f) && f@ == self.spec_auth_com_frame(p),
                Err(e) => r == Err::<Vec<u8>, ViperError>(e),
            }),
            cmd matches CommandKind::UCFG(scope) ==> r matches Ok(f) && f@ == self.spec_com_frame(
                encode_utf8(scope@),
            ),
    {
        match render(cmd, store) {
            Err(e) => Err(e),
            Ok(payload) => match cmd {
                CommandKind::UAUT(_) => Ok(
                    build_auth_frame(self.id0, self.id1, OP_COMMAND, payload.as_slice()),
                ),
                CommandKind::UCFG(_) => Ok(
                    build_generic_checked(
                        self.kw.as_slice(),
                        self.id0,
                        self.id1,
                        OP_COMMAND,
                        payload.as_slice(),
                    ),
                ),
            },
        }
    }
}

/// Builds a generic-shape frame from a keyword already known to fit.
fn build_generic_checked(kw: &[u8], ctl0: u8, ctl1: u8, ctl2: u8, payload: &[u8]) -> (f: Vec<u8>)
    requires
        keyword_ok(kw@),
    ensures
        f@ == spec_generic_frame(kw@, seq![ctl0, ctl1, ctl2], payload@),
{
    match build_generic_frame(kw, ctl0, ctl1, ctl2, payload) {
        Ok(f) => f,
        Err(_) => {
            proof {
                assert(false);
            }
            Vec::new()
        },
    }
}

/// Tag byte of a connect-handshake payload.
pub const TAG_HANDSHAKE: u8 = 0xc0;
/// Tag byte of a connect-actuator payload.
pub const TAG_ACTUATOR: u8 = 0xc1;
/// Tag byte of a link-actuators payload.
pub const TAG_LINK: u8 = 0xc2;

/// Payload of a connect-handshake frame: the subscriber and device addresses,
/// NUL-separated, behind the handshake tag.
pub open spec fn spec_hs_payload(sub: Seq<char>, addr: Seq<char>) -> Seq<u8> {
    seq![TAG_HANDSHAKE] + encode_utf8(sub) + seq![0x00u8] + encode_utf8(addr)
}

/// Payload of a connect-actuator frame for actuator index `idx`.
pub open spec fn spec_actuator_payload(idx: u8, a: Seq<char>, b: Seq<char>) -> Seq<u8> {
    seq![TAG_ACTUATOR, idx] + encode_utf8(a) + seq![0x00u8] + encode_utf8(b)
}

/// Payload of a link-actuators frame: the actuator group and the subscriber.
pub open spec fn spec_link_payload(act: Seq<char>, sub: Seq<char>) -> Seq<u8> {
    seq![TAG_LINK] + encode_utf8(act) + seq![0x00u8] + encode_utf8(sub)
}

/// The actuator-control channel: the generic channel lifecycle under the
/// `CTPP` keyword, plus the specialized frames of the door-release handshake.
pub struct CtppChannel {
    /// The underlying channel, bound to the `CTPP` keyword.
    pub ch: Channel,
}

impl CtppChannel {
    /// Well-formed when the underlying channel is and carries the right
    /// keyword.
    pub open spec fn wf(self) -> bool {
        &&& self.ch.wf()
        &&& self.ch.kw@ == ctpp_keyword()
    }

    /// Binds an actuator-control channel to the given selector bytes.
    pub fn new(id0: u8, id1: u8) -> (c: CtppChannel)
        ensures
            c.wf(),
            c.ch.id0 == id0,
            c.ch.id1 == id1,
    {
        let kw = ctpp_keyword_bytes();
        proof {
            assert(keyword_ok(kw@));
        }
        CtppChannel { ch: Channel { kw, id0, id1 } }
    }

    /// The bytes of the open frame for a given subscriber.
    pub open spec fn spec_open_frame(self, sub: Seq<char>) -> Seq<u8> {
        self.ch.spec_frame_with_op(OP_OPEN, encode_utf8(sub))
    }

    /// The bytes of the connect-handshake frame.
    pub open spec fn spec_hs_frame(self, sub: Seq<char>, addr: Seq<char>) -> Seq<u8> {
        self.ch.spec_com_frame(spec_hs_payload(sub, addr))
    }

    /// The bytes of the connect-actuator frame for one actuator index.
    pub open spec fn spec_actuator_frame(self, idx: u8, a: Seq<char>, b: Seq<char>) -> Seq<u8> {
        self.ch.spec_com_frame(spec_actuator_payload(idx, a, b))
    }

    /// The bytes of the link-actuators frame.
    pub open spec fn spec_link_frame(self, act: Seq<char>, sub: Seq<char>) -> Seq<u8> {
        self.ch.spec_com_frame(spec_link_payload(act, sub))
    }

    /// The bytes of the close frame.
    pub open spec fn spec_close_frame(self) -> Seq<u8> {
        self.ch.spec_close_frame()
    }

    /// Renders the open frame, carrying the subscriber address as payload.
    pub fn open(&self, sub: &str) -> (f: Vec<u8>)
        requires
            self.wf(),
        ensures
            f@ == self.spec_open_frame(sub@),
    {
        build_generic_checked(
            self.ch.kw.as_slice(),
            self.ch.id0,
            self.ch.id1,
            OP_OPEN,
            sub.as_bytes(),
        )
    }

    /// Renders the connect-handshake frame binding the subscriber and the
    /// device address.
    pub fn connect_hs(&self, sub: &str, addr: &str) -> (f: Vec<u8>)
        requires
            self.wf(),
        ensures
            f@ == self.spec_hs_frame(sub@, addr@),
    {
        let mut payload: Vec<u8> = Vec::new();
        payload.push(TAG_HANDSHAKE);
        payload.extend_from_slice(sub.as_bytes());
        payload.push(0x00u8);
        payload.extend_from_slice(addr.as_bytes());
        proof {
            assert(payload@ =~= spec_hs_payload(sub@, addr@));
        }
        build_generic_checked(
            self.ch.kw.as_slice(),
            self.ch.id0,
            self.ch.id1,
            OP_COMMAND,
            payload.as_slice(),
        )
    }

    /// Renders the connect-actuator frame for one actuator index.
    pub fn connect_actuators(&self, idx: u8, a: &str, b: &str) -> (f: Vec<u8>)
        requires
            self.wf(),
        ensures
            f@ == self.spec_actuator_frame(idx, a@, b@),
    {
        let mut payload: Vec<u8> = Vec::new();
        payload.push(TAG_ACTUATOR);
        payload.push(idx);
        payload.extend_from_slice(a.as_bytes());
        payload.push(0x00u8);
        payload.extend_from_slice(b.as_bytes());
        proof {
            assert(payload@ =~= spec_actuator_payload(idx, a@, b@));
        }
        build_generic_checked(
            self.ch.kw.as_slice(),
            self.ch.id0,
            self.ch.id1,
            OP_COMMAND,
            payload.as_slice(),
        )
    }

    /// Renders the link-actuators frame associating the actuator group with
    /// the target output.
    pub fn link_actuators(&self, act: &str, sub: &str) -> (f: Vec<u8>)
        requires
            self.wf(),
        ensures
            f@ == self.spec_link_frame(act@, sub@),
    {
        let mut payload: Vec<u8> = Vec::new();
        payload.push(TAG_LINK);
        payload.extend_from_slice(act.as_bytes());
        payload.push(0x00u8);
        payload.extend_from_slice(sub.as_bytes());
        proof {
            assert(payload@ =~= spec_link_payload(act@, sub@));
        }
        build_generic_checked(
            self.ch.kw.as_slice(),
            self.ch.id0,
            self.ch.id1,
            OP_COMMAND,
            payload.as_slice(),
        )
    }

    /// Renders the close frame.
    pub fn close(&self) -> (f: Vec<u8>)
        requires
            self.wf(),
        ensures
            f@ == self.spec_close_frame(),
    {
        self.ch.close()
    }
}

} // verus!
