use vstd::prelude::*;

verus! {

/// The failure kinds a protocol operation can surface. None is retried inside
/// the core; a failed step leaves the session unusable and the caller must
/// reconnect.
#[derive(Clone, Copy, Debug, PartialEq, Eq, Structural)]
pub enum ViperError {
    /// The connection could not be made, was lost, or the session is no
    /// longer usable after an earlier failure or shutdown.
    ConnectFailed,
    /// A read or write did not complete within the session timeout.
    Timeout,
    /// A response's fixed payload window was not valid UTF-8 or did not parse
    /// as JSON.
    MalformedResponse,
    /// No usable authentication template was available.
    TemplateMissing,
    /// A rendered payload or keyword was not valid for the wire encoding.
    EncodingError,
}

} // verus!
