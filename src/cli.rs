//! The server's command-line options and the transport they select.

use vstd::prelude::*;
use crate::text::{decimal, push_decimal};

verus! {

/// The command-line options.
#[derive(Clone, Debug)]
pub struct Cli {
    /// Serve over server-sent events.
    pub sse: bool,
    /// Serve over streamable HTTP.
    pub http: bool,
    /// The port to listen on, for the network transports.
    pub port: u16,
    /// The host to bind to, for the network transports.
    pub host: String,
}

/// How the server talks to its clients.
#[derive(Clone, Copy, Debug, PartialEq, Eq, Structural)]
pub enum TransportMode {
    /// One session over standard input and output.
    Stdio,
    /// A session per event-stream connection.
    Sse,
    /// Sessions over streamable HTTP connections.
    StreamableHttp,
}

/// The default port of the network transports.
pub const DEFAULT_PORT: u16 = 8080;

impl Cli {
    /// The options with no flag given: standard input and output, and the
    /// default host and port.
    pub fn new() -> (r: Cli)
        ensures
            !r.sse,
            !r.http,
            r.port == DEFAULT_PORT,
            r.host@ == "127.0.0.1"@,
    {
        Cli { sse: false, http: false, port: DEFAULT_PORT, host: String::from_str("127.0.0.1") }
    }

    /// The transport the options select: event streams where `sse` is set,
    /// else streamable HTTP where `http` is set, else standard input and
    /// output.
    pub fn transport(&self) -> (r: TransportMode)
        ensures
            r == (if self.sse {
                TransportMode::Sse
            } else if self.http {
                TransportMode::StreamableHttp
            } else {
                TransportMode::Stdio
            }),
    {
        if self.sse {
            TransportMode::Sse
        } else if self.http {
            TransportMode::StreamableHttp
        } else {
            TransportMode::Stdio
        }
    }

    /// The address to listen on: the host, a colon, and the port.
    pub fn bind_address(&self) -> (r: String)
        ensures
            r@ == self.host@ + ":"@ + decimal(self.port as nat),
    {
        let mut s = self.host.clone();
        s.append(":");
        push_decimal(&mut s, self.port as u64);
        s
    }
}

} // verus!
