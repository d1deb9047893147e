//! A diagnostic TLS client's core: the connection pipeline, the
//! certificate-inspection records, and the milestone timeline.
//!
//! Given a target host and a set of acceptable TLS protocol versions, one
//! connection attempt runs TCP connect, TLS handshake, certificate
//! extraction, a minimal HTTP/1.0 request, and a read to end-of-stream,
//! recording a timestamped event per completed stage. The decisions and
//! the data handling live here; the surrounding I/O reports each stage's
//! outcome back and renders the final report.

pub mod certificate;
pub mod error;
pub mod http;
pub mod pipeline;
pub mod timeline;
