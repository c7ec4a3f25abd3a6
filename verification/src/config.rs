//! Parameters of one run, installed wholesale when a run starts.

use vstd::prelude::*;

verus! {

/// How requests are carried: the protocol the connection is restricted to,
/// and, in the query-string variant, where the padding payload is placed.
#[derive(Clone, Copy, PartialEq, Eq, Structural, Debug)]
pub enum Protocol {
    /// Restrict the connection to HTTP/1.1 only.
    Http1,
    /// Force HTTP/2 with prior knowledge, without upgrade negotiation.
    Http2,
    /// HTTP/1.1, with the correlation id and payload sent as query
    /// parameters instead of custom headers.
    QueryString,
}

impl Protocol {
    pub open spec fn spec_label(&self) -> Seq<char> {
        match self {
            Protocol::Http1 => "HTTP/1.1"@,
            Protocol::Http2 => "HTTP/2"@,
            Protocol::QueryString => "queryString"@,
        }
    }

    /// The name the protocol goes by in configuration and log lines.
    pub fn label(&self) -> (r: String)
        ensures
            r@ == self.spec_label(),
    {
        match self {
            Protocol::Http1 => "HTTP/1.1".to_owned(),
            Protocol::Http2 => "HTTP/2".to_owned(),
            Protocol::QueryString => "queryString".to_owned(),
        }
    }
}

/// Snapshot of a single run's parameters; immutable for the run's duration.
pub struct RunConfig {
    pub dst_url: String,
    /// Pause before each dispatch, in milliseconds.
    pub delay_ms: u64,
    /// Size of the padding payload, in kilobytes.
    pub header_size_kb: usize,
    pub protocol: Protocol,
    /// How many requests the run should initiate.
    pub iteration: usize,
}

impl RunConfig {
    pub fn duplicate(&self) -> (r: RunConfig)
        ensures
            r == *self,
    {
        RunConfig {
            dst_url: self.dst_url.clone(),
            delay_ms: self.delay_ms,
            header_size_kb: self.header_size_kb,
            protocol: self.protocol,
            iteration: self.iteration,
        }
    }
}

} // verus!
