//! The transport session's decision core. The session owns the connection's
//! timeout policy and usability state; the blocking TCP work itself (connect,
//! write, read, with the timeout enforced by the socket) is done by the
//! embedding program, which reports each outcome back here. Every operation
//! starts at the usability gate, so once a timeout or transport failure has
//! poisoned the session, every later operation on it fails by itself; the
//! caller must discard the session and reconnect.

use vstd::prelude::*;
use vstd::utf8::encode_utf8;
use crate::channel::Channel;
use crate::channel::CtppChannel;
use crate::error::ViperError;
use crate::frame::keyword_ok;
use crate::response::RawResponse;

verus! {

/// The observed default read/write timeout, in milliseconds.
pub const DEFAULT_TIMEOUT_MS: u64 = 5000;

/// Connection settings injected once, at session construction.
pub struct SessionConfig {
    /// Device address.
    pub ip: String,
    /// Device control port.
    pub port: String,
    /// Credential token for authentication.
    pub token: String,
}

/// One logical TCP session: timeout policy, usability state, and the counter
/// that hands out channel selector bytes. Not shareable across concurrent
/// operations.
pub struct Session {
    /// Connection settings, immutable for the session's lifetime.
    pub config: SessionConfig,
    /// Read/write timeout in milliseconds.
    pub timeout_ms: u64,
    /// False once a timeout, a transport failure or a shutdown has made the
    /// session unusable.
    pub usable: bool,
    /// Next channel selector to hand out.
    pub next_id: u16,
}

/// How a blocking write ended.
pub enum WriteOutcome {
    /// The frame was written in full within the timeout.
    Sent,
    /// The write did not complete within the timeout.
    TimedOut,
    /// The connection failed or was lost.
    Failed,
}

/// How a blocking read ended.
pub enum ReadOutcome {
    /// A reply buffer was filled.
    Received(RawResponse),
    /// The read did not complete within the timeout.
    TimedOut,
    /// The connection failed or was lost.
    Failed,
}

/// The usability gate: what starting an operation on the session returns.
pub open spec fn spec_gate(s: Session) -> Result<(), ViperError> {
    if s.usable {
        Ok(())
    } else {
        Err(ViperError::ConnectFailed)
    }
}

/// The session after a write outcome, and the error surfaced, if any.
pub open spec fn spec_after_write(s: Session, o: WriteOutcome) -> (Session, Result<
    (),
    ViperError,
>) {
    match o {
        WriteOutcome::Sent => (s, Ok(())),
        WriteOutcome::TimedOut => (Session { usable: false, ..s }, Err(ViperError::Timeout)),
        WriteOutcome::Failed => (Session { usable: false, ..s }, Err(ViperError::ConnectFailed)),
    }
}

/// The session after a read outcome, and the reply or error surfaced.
pub open spec fn spec_after_read(s: Session, o: ReadOutcome) -> (Session, Result<
    RawResponse,
    ViperError,
>) {
    match o {
        ReadOutcome::Received(resp) => (s, Ok(resp)),
        ReadOutcome::TimedOut => (Session { usable: false, ..s }, Err(ViperError::Timeout)),
        ReadOutcome::Failed => (Session { usable: false, ..s }, Err(ViperError::ConnectFailed)),
    }
}

impl Session {
    /// Opens a session on the given settings, with the default timeout,
    /// usable until a failure or shutdown.
    pub fn new(config: SessionConfig) -> (s: Session)
        ensures
            s.config == config,
            s.timeout_ms == DEFAULT_TIMEOUT_MS,
            s.usable,
            s.next_id == 0,
    {
        Session { config, timeout_ms: DEFAULT_TIMEOUT_MS, usable: true, next_id: 0 }
    }

    /// The usability gate. Every operation on the session performs this check
    /// first, so a session poisoned by an earlier failure fails every later
    /// call without any device involved.
    pub fn check_usable(&self) -> (r: Result<(), ViperError>)
        ensures
            r == spec_gate(*self),
    {
        if self.usable {
            Ok(())
        } else {
            Err(ViperError::ConnectFailed)
        }
    }

    /// Creates a channel bound to `kw` under a fresh selector. The keyword
    /// must fit the wire format; the selector counter advances only when a
    /// channel is handed out.
    pub fn channel(&mut self, kw: &str) -> (r: Result<Channel, ViperError>)
        requires
            old(self).next_id < 0xffff,
        ensures
            final(self).config == old(self).config,
            final(self).timeout_ms == old(self).timeout_ms,
            final(self).usable == old(self).usable,
            keyword_ok(encode_utf8(kw@)) ==> (r matches Ok(c) && c.wf() && c.kw@ == encode_utf8(
                kw@,
            ) && c.id0 == (old(self).next_id % 256) as u8 && c.id1 == (old(self).next_id
                / 256) as u8 && final(self).next_id == old(self).next_id + 1),
            !keyword_ok(encode_utf8(kw@)) ==> r == Err::<Channel, ViperError>(
                ViperError::EncodingError,
            ) && final(self).next_id == old(self).next_id,
    {
        let id0 = (self.next_id % 256) as u8;
        let id1 = (self.next_id / 256) as u8;
        match Channel::new(kw, id0, id1) {
            Ok(c) => {
                self.next_id = self.next_id + 1;
                Ok(c)
            },
            Err(e) => Err(e),
        }
    }

    /// Creates an actuator-control channel under a fresh selector.
    pub fn ctpp_channel(&mut self) -> (c: CtppChannel)
        requires
            old(self).next_id < 0xffff,
        ensures
            final(self).config == old(self).config,
            final(self).timeout_ms == old(self).timeout_ms,
            final(self).usable == old(self).usable,
            final(self).next_id == old(self).next_id + 1,
            c.wf(),
            c.ch.id0 == (old(self).next_id % 256) as u8,
            c.ch.id1 == (old(self).next_id / 256) as u8,
    {
        let id0 = (self.next_id % 256) as u8;
        let id1 = (self.next_id / 256) as u8;
        self.next_id = self.next_id + 1;
        CtppChannel::new(id0, id1)
    }

    /// Records how a blocking write ended. A timeout or transport failure
    /// poisons the session and surfaces the matching error.
    pub fn record_write(&mut self, outcome: &WriteOutcome) -> (r: Result<(), ViperError>)
        ensures
            *final(self) == spec_after_write(*old(self), *outcome).0,
            r == spec_after_write(*old(self), *outcome).1,
    {
        match outcome {
            WriteOutcome::Sent => Ok(()),
            WriteOutcome::TimedOut => {
                self.usable = false;
                Err(ViperError::Timeout)
            },
            WriteOutcome::Failed => {
                self.usable = false;
                Err(ViperError::ConnectFailed)
            },
        }
    }

    /// Records how a blocking read ended, handing the reply through. A
    /// timeout or transport failure poisons the session and surfaces the
    /// matching error.
    pub fn record_read(&mut self, outcome: ReadOutcome) -> (r: Result<RawResponse, ViperError>)
        ensures
            *final(self) == spec_after_read(*old(self), outcome).0,
            (match spec_after_read(*old(self), outcome).1 {
                Ok(resp) => r matches Ok(got) && got == resp,
                Err(e) => r matches Err(got) && got == e,
            }),
    {
        match outcome {
            ReadOutcome::Received(resp) => Ok(resp),
            ReadOutcome::TimedOut => {
                self.usable = false;
                Err(ViperError::Timeout)
            },
            ReadOutcome::Failed => {
                self.usable = false;
                Err(ViperError::ConnectFailed)
            },
        }
    }

    /// Tears the session down. The embedding program releases the underlying
    /// connection; the session itself is unusable from here on, whatever path
    /// execution took to this point.
    pub fn shutdown(&mut self)
        ensures
            final(self).config == old(self).config,
            final(self).timeout_ms == old(self).timeout_ms,
            final(self).next_id == old(self).next_id,
            !final(self).usable,
    {
        self.usable = false;
    }
}

/// Law: a write or read timeout surfaces `Timeout` and poisons the session,
/// and on a poisoned session every later operation already fails at the
/// usability gate, with no device involved.
pub proof fn lemma_timeout_poisons_session(s: Session)
    requires
        s.usable,
    ensures
        ({
            let (sw, rw) = spec_after_write(s, WriteOutcome::TimedOut);
            &&& rw == Err::<(), ViperError>(ViperError::Timeout)
            &&& !sw.usable
            &&& spec_gate(sw) == Err::<(), ViperError>(ViperError::ConnectFailed)
        }),
        ({
            let (sr, rr) = spec_after_read(s, ReadOutcome::TimedOut);
            &&& rr == Err::<RawResponse, ViperError>(ViperError::Timeout)
            &&& !sr.usable
            &&& spec_gate(sr) == Err::<(), ViperError>(ViperError::ConnectFailed)
        }),
{
}

} // verus!
