//! A broker/sandbox privilege-separation library.
//!
//! A privileged broker process mediates resource access for an unprivileged,
//! namespace-isolated sandbox process over a local datagram channel that can
//! carry open file descriptors.  This crate holds the verified core of that
//! design: the wire-protocol codec, the path policy, the broker's dispatch
//! rules, the client's reply interpretation, and the isolation bootstrap
//! ordering.  Process spawning, sockets and system calls live outside the
//! library and consume its decisions.

pub mod args;
pub mod bootstrap;
pub mod client;
pub mod policy;
pub mod request;
pub mod response;
pub mod server;
pub mod util;
pub mod wire;
