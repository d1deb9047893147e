//! The connection pipeline: one attempt, stage by stage.
//!
//! A pipeline is a state machine driven by the outcomes of the network
//! operations around it: resolve, connect, handshake, write, read. Each
//! completed stage records one timeline event; any stage failure moves to
//! the terminal `Failed` state with the kind of the failure, and nothing
//! is retried. The decisions live here and are verified; performing the
//! I/O and reporting each outcome back is the caller's part.

use vstd::prelude::*;
use vstd::string::StringExecFns;

use crate::certificate::SslCertificate;
use crate::certificate::chain_parses;
use crate::certificate::extract_certificates;
use crate::certificate::extraction_matches;
use crate::error::ErrorKind;
use crate::http::first_separator;
use crate::http::http_request_for_host;
use crate::http::split_response;
use crate::timeline::EventLog;

verus! {

/// A TLS protocol version the caller may restrict the handshake to.
#[derive(Clone, Copy, Debug, PartialEq, Eq, Structural)]
pub enum TlsProtocol {
    Tlsv10,
    Tlsv11,
    Tlsv12,
}

/// The protocol version a configuration token names: `"1"` and `"1.0"`
/// name TLS 1.0, `"1.1"` TLS 1.1, `"1.2"` TLS 1.2; any other token names
/// nothing.
pub open spec fn protocol_of_token(s: Seq<char>) -> Option<TlsProtocol> {
    if s == "1"@ || s == "1.0"@ {
        Some(TlsProtocol::Tlsv10)
    } else if s == "1.1"@ {
        Some(TlsProtocol::Tlsv11)
    } else if s == "1.2"@ {
        Some(TlsProtocol::Tlsv12)
    } else {
        None
    }
}

/// The two strings hold the same characters.
fn str_eq(a: &str, b: &str) -> (r: bool)
    ensures
        r == (a@ == b@),
{
    let x = a.to_owned();
    let y = b.to_owned();
    x == y
}

/// Maps a configuration token to the TLS protocol version it names.
/// An unrecognized token is an invalid configuration, found before any
/// network activity begins.
pub fn tls_protocol_from_string(s: &str) -> (r: Result<TlsProtocol, ErrorKind>)
    ensures
        r is Ok <==> protocol_of_token(s@) is Some,
        r matches Ok(p) ==> protocol_of_token(s@) == Some(p),
        r matches Err(k) ==> k == ErrorKind::InvalidConfiguration,
{
    if str_eq(s, "1") || str_eq(s, "1.0") {
        Ok(TlsProtocol::Tlsv10)
    } else if str_eq(s, "1.1") {
        Ok(TlsProtocol::Tlsv11)
    } else if str_eq(s, "1.2") {
        Ok(TlsProtocol::Tlsv12)
    } else {
        Err(ErrorKind::InvalidConfiguration)
    }
}

/// Where a connection attempt stands.
#[derive(Clone, Copy, Debug, PartialEq, Eq, Structural)]
pub enum PipelineState {
    /// Nothing attempted yet; the hostname is about to be resolved.
    Idle,
    /// The address resolved; the TCP connection is being made.
    Connecting,
    /// TCP connected; the TLS handshake is in flight.
    HandshakeInProgress,
    /// Handshake done and the peer's chain reduced to records; the
    /// request is about to be written.
    CertificatesExtracted,
    /// The full request was written; the response read is about to start.
    RequestSent,
    /// Reading until the peer closes the connection.
    ReadingResponse,
    /// The response was read and split; a report can be emitted.
    Complete,
    /// A stage failed; the attempt is over, nothing is retried.
    Failed(ErrorKind),
}

/// The outcome of the outside operation the pipeline was waiting on.
#[derive(Debug)]
pub enum StageEvent {
    /// The hostname resolved to at least one address.
    ResolutionSucceeded,
    /// The hostname has no resolvable address.
    ResolutionFailed,
    /// The TCP connection was established.
    ConnectSucceeded,
    /// The TCP connection was refused or the host unreachable.
    ConnectFailed,
    /// The TLS handshake completed; the peer presented this trust chain,
    /// one DER-encoded certificate per entry, leaf first as presented.
    HandshakeSucceeded(Vec<Vec<u8>>),
    /// TLS negotiation failed, or no requested version was acceptable.
    HandshakeFailed,
    /// The full request reached the stream.
    WriteSucceeded,
    /// The stream failed while writing.
    WriteFailed,
    /// The read to end-of-stream was started.
    ReadStarted,
    /// The peer closed the connection; these are the accumulated bytes.
    ReadSucceeded(Vec<u8>),
    /// The stream failed while reading.
    ReadFailed,
}

/// What the caller is to do next for the pipeline.
#[derive(Debug)]
pub enum PipelineAction {
    /// Resolve the target host, for TCP port 443.
    Resolve,
    /// Connect to the first resolved address.
    Connect,
    /// Run the TLS handshake, restricted to the requested versions, with
    /// the target hostname as server name.
    Handshake,
    /// Write these bytes, in full, to the TLS stream.
    WriteRequest(String),
    /// Read from the stream until the peer closes the connection.
    ReadResponse,
    /// Emit the report: the attempt completed.
    Report,
    /// Abort: the attempt failed with this kind.
    Abort(ErrorKind),
}

/// The event that can arrive in a state: exactly the outcome of the
/// operation that state awaits. Terminal states await nothing.
pub open spec fn event_fits(s: PipelineState, ev: StageEvent) -> bool {
    match s {
        PipelineState::Idle => ev is ResolutionSucceeded || ev is ResolutionFailed,
        PipelineState::Connecting => ev is ConnectSucceeded || ev is ConnectFailed,
        PipelineState::HandshakeInProgress => ev is HandshakeSucceeded || ev is HandshakeFailed,
        PipelineState::CertificatesExtracted => ev is WriteSucceeded || ev is WriteFailed,
        PipelineState::RequestSent => ev is ReadStarted,
        PipelineState::ReadingResponse => ev is ReadSucceeded || ev is ReadFailed,
        PipelineState::Complete => false,
        PipelineState::Failed(_) => false,
    }
}

/// The state an event moves the pipeline to.
pub open spec fn step_state(ev: StageEvent) -> PipelineState {
    match ev {
        StageEvent::ResolutionSucceeded => PipelineState::Connecting,
        StageEvent::ResolutionFailed => PipelineState::Failed(ErrorKind::ResolutionFailure),
        StageEvent::ConnectSucceeded => PipelineState::HandshakeInProgress,
        StageEvent::ConnectFailed => PipelineState::Failed(ErrorKind::ConnectionFailure),
        StageEvent::HandshakeSucceeded(chain) => if chain_parses(chain@) {
            PipelineState::CertificatesExtracted
        } else {
            PipelineState::Failed(ErrorKind::CertificateDecodeFailure)
        },
        StageEvent::HandshakeFailed => PipelineState::Failed(ErrorKind::HandshakeFailure),
        StageEvent::WriteSucceeded => PipelineState::RequestSent,
        StageEvent::WriteFailed => PipelineState::Failed(ErrorKind::ConnectionFailure),
        StageEvent::ReadStarted => PipelineState::ReadingResponse,
        StageEvent::ReadSucceeded(data) => if first_separator(data@) >= 0 {
            PipelineState::Complete
        } else {
            PipelineState::Failed(ErrorKind::MalformedResponse)
        },
        StageEvent::ReadFailed => PipelineState::Failed(ErrorKind::ConnectionFailure),
    }
}

/// The label recorded when an event arrives: completed milestones record
/// one event each, failures record none.
pub open spec fn milestone_of(ev: StageEvent) -> Option<Seq<char>> {
    match ev {
        StageEvent::ConnectSucceeded => Some("Connection Established"@),
        StageEvent::HandshakeSucceeded(_) => Some("TLS Handshake"@),
        StageEvent::ReadStarted => Some("Reading Response"@),
        StageEvent::ReadSucceeded(_) => Some("Response Fetched"@),
        _ => None,
    }
}

/// One connection attempt: the target, the allowed protocol versions, the
/// milestone timeline, and everything the stages have produced so far.
pub struct Pipeline {
    pub state: PipelineState,
    pub host: String,
    pub versions: Vec<TlsProtocol>,
    pub timeline: EventLog<String>,
    pub certificates: Vec<SslCertificate>,
    pub response_header: Vec<u8>,
    pub response_body: Vec<u8>,
}

/// Everything a completed attempt reports: the header block, the body
/// bytes, the chain records in presented order, and the full timeline.
pub struct PipelineResult {
    pub response_header: Vec<u8>,
    pub response_body: Vec<u8>,
    pub certificates: Vec<SslCertificate>,
    pub timeline: EventLog<String>,
}

impl Pipeline {
    /// The timeline's offsets never decrease.
    pub open spec fn wf(self) -> bool {
        self.timeline.wf()
    }

    /// Sets up one attempt against `host`: every version token must name
    /// a protocol version, else the configuration is invalid and nothing
    /// is attempted. The fresh pipeline is idle, with an empty timeline
    /// and the requested versions in the order given.
    pub fn new(host: String, version_tokens: &Vec<String>) -> (r: Result<Pipeline, ErrorKind>)
        ensures
            r is Ok <==> (forall|i: int|
                0 <= i < version_tokens@.len() ==> protocol_of_token(
                    #[trigger] version_tokens@[i]@,
                ) is Some),
            r matches Err(k) ==> k == ErrorKind::InvalidConfiguration,
            r matches Ok(p) ==> {
                &&& p.state == PipelineState::Idle
                &&& p.host == host
                &&& p.versions@.len() == version_tokens@.len()
                &&& forall|i: int|
                    0 <= i < version_tokens@.len() ==> Some(#[trigger] p.versions@[i])
                        == protocol_of_token(version_tokens@[i]@)
                &&& p.timeline.log@.len() == 0
                &&& p.certificates@.len() == 0
                &&& p.wf()
            },
    {
        let mut versions: Vec<TlsProtocol> = Vec::new();
        let mut idx: usize = 0;
        while idx < version_tokens.len()
            invariant
                0 <= idx <= version_tokens@.len(),
                versions@.len() == idx,
                forall|i: int|
                    0 <= i < idx ==> Some(#[trigger] versions@[i]) == protocol_of_token(
                        version_tokens@[i]@,
                    ),
            decreases version_tokens@.len() - idx,
        {
            match tls_protocol_from_string(version_tokens[idx].as_str()) {
                Ok(p) => versions.push(p),
                Err(k) => {
                    return Err(k);
                },
            }
            idx += 1;
        }
        proof {
            assert forall|i: int|
                0 <= i < version_tokens@.len() implies protocol_of_token(
                #[trigger] version_tokens@[i]@,
            ) is Some by {
                assert(Some(versions@[i]) == protocol_of_token(version_tokens@[i]@));
            }
        }
        Ok(
            Pipeline {
                state: PipelineState::Idle,
                host,
                versions,
                timeline: EventLog::new(),
                certificates: Vec::new(),
                response_header: Vec::new(),
                response_body: Vec::new(),
            },
        )
    }

    /// The operation to perform for the current state: each non-terminal
    /// state asks for the operation it awaits, a complete attempt asks
    /// for its report, a failed one for its abort with the failure kind.
    pub fn next_action(&self) -> (a: PipelineAction)
        ensures
            self.state is Idle ==> a is Resolve,
            self.state is Connecting ==> a is Connect,
            self.state is HandshakeInProgress ==> a is Handshake,
            self.state is CertificatesExtracted ==> (a matches PipelineAction::WriteRequest(req)
                && req@ == "GET / HTTP/1.0\r\nHost: "@ + self.host@
                + "\r\nConnection: close\r\n\r\n"@),
            self.state is RequestSent ==> a is ReadResponse,
            self.state is ReadingResponse ==> a is ReadResponse,
            self.state is Complete ==> a is Report,
            self.state matches PipelineState::Failed(k) ==> a == PipelineAction::Abort(k),
    {
        match &self.state {
            PipelineState::Idle => PipelineAction::Resolve,
            PipelineState::Connecting => PipelineAction::Connect,
            PipelineState::HandshakeInProgress => PipelineAction::Handshake,
            PipelineState::CertificatesExtracted => PipelineAction::WriteRequest(
                http_request_for_host(self.host.as_str()),
            ),
            PipelineState::RequestSent => PipelineAction::ReadResponse,
            PipelineState::ReadingResponse => PipelineAction::ReadResponse,
            PipelineState::Complete => PipelineAction::Report,
            PipelineState::Failed(k) => PipelineAction::Abort(*k),
        }
    }

    /// Feeds the outcome of the awaited operation into the pipeline. The
    /// state moves exactly as the event dictates; the completed milestone,
    /// if any, is appended to the timeline, which is otherwise untouched;
    /// a successful handshake reduces the presented chain to records; the
    /// accumulated response bytes are split at the first blank-line
    /// separator. The target and the requested versions never change.
    pub fn on_event(&mut self, ev: StageEvent)
        requires
            old(self).wf(),
            event_fits(old(self).state, ev),
        ensures
            final(self).wf(),
            final(self).state == step_state(ev),
            final(self).host == old(self).host,
            final(self).versions == old(self).versions,
            // the timeline is strictly additive
            forall|i: int|
                0 <= i < old(self).timeline.log@.len() ==> final(self).timeline.log@[i]
                    == old(self).timeline.log@[i],
            milestone_of(ev) is None ==> final(self).timeline == old(self).timeline,
            milestone_of(ev) matches Some(label) ==> {
                &&& final(self).timeline.log@.len() == old(self).timeline.log@.len() + 1
                &&& final(self).timeline.log@.last().description@ == label
                &&& final(self).timeline.log@.last().metadata is None
            },
            // certificates change only on a successful handshake
            !(ev is HandshakeSucceeded) ==> final(self).certificates == old(self).certificates,
            ev matches StageEvent::HandshakeSucceeded(chain) ==> if chain_parses(chain@) {
                extraction_matches(final(self).certificates@, chain@)
            } else {
                final(self).certificates == old(self).certificates
            },
            // the response is split only when the read completes
            !(ev is ReadSucceeded) ==> final(self).response_header == old(self).response_header
                && final(self).response_body == old(self).response_body,
            ev matches StageEvent::ReadSucceeded(data) ==> if first_separator(data@) >= 0 {
                &&& final(self).response_header@ == data@.subrange(
                    0,
                    first_separator(data@) + 2,
                )
                &&& final(self).response_body@ == data@.subrange(
                    first_separator(data@) + 4,
                    data@.len() as int,
                )
            } else {
                final(self).response_header == old(self).response_header
                    && final(self).response_body == old(self).response_body
            },
    {
        match ev {
            StageEvent::ResolutionSucceeded => {
                self.state = PipelineState::Connecting;
            },
            StageEvent::ResolutionFailed => {
                self.state = PipelineState::Failed(ErrorKind::ResolutionFailure);
            },
            StageEvent::ConnectSucceeded => {
                self.timeline.add("Connection Established");
                self.state = PipelineState::HandshakeInProgress;
            },
            StageEvent::ConnectFailed => {
                self.state = PipelineState::Failed(ErrorKind::ConnectionFailure);
            },
            StageEvent::HandshakeSucceeded(chain) => {
                self.timeline.add("TLS Handshake");
                match extract_certificates(&chain) {
                    Ok(records) => {
                        self.certificates = records;
                        self.state = PipelineState::CertificatesExtracted;
                    },
                    Err(k) => {
                        self.state = PipelineState::Failed(k);
                    },
                }
            },
            StageEvent::HandshakeFailed => {
                self.state = PipelineState::Failed(ErrorKind::HandshakeFailure);
            },
            StageEvent::WriteSucceeded => {
                self.state = PipelineState::RequestSent;
            },
            StageEvent::WriteFailed => {
                self.state = PipelineState::Failed(ErrorKind::ConnectionFailure);
            },
            StageEvent::ReadStarted => {
                self.timeline.add("Reading Response");
                self.state = PipelineState::ReadingResponse;
            },
            StageEvent::ReadSucceeded(data) => {
                self.timeline.add("Response Fetched");
                match split_response(&data) {
                    Ok(parts) => {
                        let (header, body) = parts;
                        self.response_header = header;
                        self.response_body = body;
                        self.state = PipelineState::Complete;
                    },
                    Err(k) => {
                        self.state = PipelineState::Failed(k);
                    },
                }
            },
            StageEvent::ReadFailed => {
                self.state = PipelineState::Failed(ErrorKind::ConnectionFailure);
            },
        }
    }

    /// Hands out what the attempt produced: the full result of a complete
    /// attempt, or the kind of the first failure. Nothing is altered,
    /// reordered or filtered on the way out.
    pub fn into_result(self) -> (r: Result<PipelineResult, ErrorKind>)
        requires
            self.state is Complete || self.state is Failed,
        ensures
            r is Ok <==> self.state is Complete,
            self.state matches PipelineState::Failed(k) ==> r == Err::<PipelineResult, ErrorKind>(
                k,
            ),
            r matches Ok(out) ==> {
                &&& out.response_header == self.response_header
                &&& out.response_body == self.response_body
                &&& out.certificates == self.certificates
                &&& out.timeline == self.timeline
            },
    {
        match self.state {
            PipelineState::Failed(k) => Err(k),
            _ => Ok(
                PipelineResult {
                    response_header: self.response_header,
                    response_body: self.response_body,
                    certificates: self.certificates,
                    timeline: self.timeline,
                },
            ),
        }
    }
}

} // verus!
