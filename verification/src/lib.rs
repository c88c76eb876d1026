//! A TLS-terminating listener in sans-I/O form: the rules by which a server
//! picks its certificate for each connection, with the TLS machinery itself
//! left to rustls.
//!
//! - `config`: what a configuration is built from, and `build`.
//! - `suite`: cipher suites and the keys they go with.
//! - `hello`: the client's hello and the host names looked up from it.
//! - `resolver`: the `Resolver` capability and the server-name table.
//! - `reload`: the resolver that takes up a changed certificate file.
//! - `handshake`: the two phases of a handshake as a state machine.
//! - `listener`: the listener that ties these together.
//! - `endpoint`: how a listener and its peers are described.
//! - `tls`: the calls into rustls, which everything else is proved from.
//!
//! Nothing here reads a file or a socket. The caller does, and tells the
//! library what it found.

pub mod config;
pub mod endpoint;
pub mod handshake;
pub mod hello;
pub mod listener;
pub mod reload;
pub mod resolver;
pub mod suite;
pub mod tls;
