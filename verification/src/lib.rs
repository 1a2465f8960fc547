//! Client core for the Viper intercom protocol: binary frame construction,
//! channel lifecycle, command rendering, the actuator-release handshake and
//! response parsing. Transport I/O (TCP, timeouts as wall-clock events) is
//! left to the embedding program, which feeds its outcomes back into the
//! session state machine defined here.

pub mod channel;
pub mod command;
pub mod encoding;
pub mod error;
pub mod frame;
pub mod handshake;
pub mod response;
pub mod session;
