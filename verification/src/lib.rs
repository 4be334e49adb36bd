//! Per-connection protocol orchestration for a reverse proxy.
//!
//! A single accepted connection passes through several protocol phases
//! (PROXY-protocol preamble, TLS handshake, HTTP, then HTTP/2 or a raw
//! tunnel). This crate holds the phase state machine: the uniform
//! per-session contract (`ready` / `update_readiness` / `timeout` /
//! `cancel_timeouts` / `close` / `shutting_down`), the readiness and
//! timeout bookkeeping that must stay consistent across phases, and the
//! forward-only transition rules between phases. The event loop, the
//! sockets and the byte-level codecs live outside; they are modeled at
//! the interface boundary by plain values.

pub mod ready;
pub mod outcome;
pub mod metrics;
pub mod socket;
pub mod resources;
pub mod proxy_protocol;
pub mod tls;
pub mod http;
pub mod h2;
pub mod pipe;
pub mod session;
