//! The resilient market-data stream: frame decoding and the bounded
//! reconnect policy.
//!
//! The connection itself is network work and lives with the process entry
//! point. This module fixes the stream's logic: how a received binary frame
//! is turned into text (plain JSON, a compression-flag prefix, or deflate),
//! and when a failed connection is retried. A successful connection resets
//! the failure counter; after more consecutive failures than the limit, the
//! stream stops with a fatal error instead of retrying forever.

use vstd::prelude::*;
use std::io::Read;
use crate::error::TradingError;
use crate::strings::clone_strings;

verus! {

/// How many consecutive connection failures the stream tolerates.
pub const STREAM_MAX_RETRIES: u32 = 5;

/// How long the stream waits before reconnecting, in milliseconds.
pub const STREAM_RETRY_DELAY_MS: u64 = 5000;

/// What raw-deflate decompression yields for a byte sequence, when it is
/// valid deflate data.
pub uninterp spec fn spec_inflated(data: Seq<u8>) -> Option<Seq<u8>>;

/// Relies on flate2's `DeflateDecoder` and `read_to_end`: raw-deflate
/// decompression of the whole input, a function of the bytes alone; the
/// error case is mapped to nothing.
#[verifier::external_body]
fn inflate(data: &Vec<u8>) -> (r: Option<Vec<u8>>)
    ensures
        r matches Some(v) ==> spec_inflated(data@) == Some(v@),
        r is None ==> spec_inflated(data@) is None,
{
    let mut decoder = flate2::read::DeflateDecoder::new(data.as_slice());
    let mut out = Vec::new();
    match decoder.read_to_end(&mut out) {
        Ok(_) => Some(out),
        Err(_) => None,
    }
}

/// What UTF-8 decoding yields for a byte sequence, when it is valid UTF-8.
pub uninterp spec fn spec_utf8_decoded(bytes: Seq<u8>) -> Option<Seq<char>>;

/// Relies on std's `String::from_utf8`: UTF-8 decoding of the bytes, a
/// function of the bytes alone; the error case is mapped to nothing.
#[verifier::external_body]
fn utf8_to_string(bytes: Vec<u8>) -> (r: Option<String>)
    ensures
        r matches Some(s) ==> spec_utf8_decoded(bytes@) == Some(s@),
        r is None ==> spec_utf8_decoded(bytes@) is None,
{
    String::from_utf8(bytes).ok()
}

/// The text of a binary stream frame.
///
/// An empty frame carries nothing. A frame opening with `{` or `[` is plain
/// JSON text. A frame opening with a zero byte carries plain text after that
/// compression flag. Any other frame is deflate-compressed text. Frames
/// whose payload fails to decode carry nothing; a malformed frame is
/// skipped, never fatal.
pub open spec fn spec_frame_text(data: Seq<u8>) -> Option<Seq<char>> {
    if data.len() == 0 {
        None
    } else if data[0] == 123 || data[0] == 91 {
        spec_utf8_decoded(data)
    } else if data[0] == 0 {
        spec_utf8_decoded(data.subrange(1, data.len() as int))
    } else {
        match spec_inflated(data) {
            Some(inflated) => spec_utf8_decoded(inflated),
            None => None,
        }
    }
}

/// Decode one binary stream frame into text, exactly as `spec_frame_text`
/// states it.
pub fn decode_frame(data: Vec<u8>) -> (r: Option<String>)
    ensures
        r matches Some(s) ==> spec_frame_text(data@) == Some(s@),
        r is None ==> spec_frame_text(data@) is None,
{
    if data.len() == 0 {
        return None;
    }
    let first = data[0];
    if first == 123 || first == 91 {
        return utf8_to_string(data);
    }
    if first == 0 {
        let mut payload: Vec<u8> = Vec::new();
        let mut i: usize = 1;
        while i < data.len()
            invariant
                1 <= i <= data@.len(),
                payload@ == data@.subrange(1, i as int),
            decreases data@.len() - i,
        {
            payload.push(data[i]);
            proof {
                assert(payload@ =~= data@.subrange(1, i as int + 1));
            }
            i = i + 1;
        }
        return utf8_to_string(payload);
    }
    match inflate(&data) {
        Some(inflated) => utf8_to_string(inflated),
        None => None,
    }
}

/// The streaming client: connects to one URL.
pub struct UpbitWebSocket {
    /// The streaming endpoint.
    pub url: String,
}

impl UpbitWebSocket {
    /// A client for the given endpoint, or for Upbit's public one.
    pub fn new(url: Option<String>) -> (r: UpbitWebSocket)
        ensures
            url matches Some(u) ==> r.url == u,
            url is None ==> r.url@ == "wss://api.upbit.com/websocket/v1"@,
    {
        match url {
            Some(u) => UpbitWebSocket { url: u },
            None => UpbitWebSocket { url: String::from_str("wss://api.upbit.com/websocket/v1") },
        }
    }
}

/// What the stream's run loop does after one connection ended.
#[derive(Debug, Clone, Copy, PartialEq, Eq, Structural)]
pub enum StreamStep {
    /// Sleep this many milliseconds, then reconnect.
    RetryAfter { delay_ms: u64 },
    /// Too many consecutive failures: return a fatal error, do not retry.
    Fatal,
}

/// A streaming client that reconnects after failures, a bounded number of
/// consecutive times.
pub struct ReconnectingWebSocket {
    /// The underlying client.
    pub ws: UpbitWebSocket,
    /// The markets the stream subscribes to.
    pub markets: Vec<String>,
    /// How many consecutive failures are tolerated.
    pub max_retries: u32,
    /// The fixed wait before a reconnect, in milliseconds.
    pub retry_delay_ms: u64,
    /// Consecutive failures so far.
    pub retry_count: u32,
}

impl ReconnectingWebSocket {
    /// The counter stays within one step of the limit, and the limit leaves
    /// room to count one failure past it.
    pub open spec fn wf(&self) -> bool {
        &&& self.retry_count <= self.max_retries + 1
        &&& self.max_retries < 0xffffffffu32
    }

    /// A fresh stream for these markets: the default endpoint, five retries,
    /// five seconds between attempts, no failures yet.
    pub fn new(markets: Vec<String>) -> (r: ReconnectingWebSocket)
        ensures
            r.wf(),
            r.markets == markets,
            r.max_retries == STREAM_MAX_RETRIES,
            r.retry_delay_ms == STREAM_RETRY_DELAY_MS,
            r.retry_count == 0,
            r.ws.url@ == "wss://api.upbit.com/websocket/v1"@,
    {
        ReconnectingWebSocket {
            ws: UpbitWebSocket::new(None),
            markets,
            max_retries: STREAM_MAX_RETRIES,
            retry_delay_ms: STREAM_RETRY_DELAY_MS,
            retry_count: 0,
        }
    }

    /// The same stream with another failure limit; every other field, the
    /// failure counter included, stays as it was.
    pub fn with_max_retries(self, max: u32) -> (r: ReconnectingWebSocket)
        requires
            max < 0xffffffffu32,
            self.retry_count <= max + 1,
        ensures
            r.wf(),
            r.max_retries == max,
            r.markets == self.markets,
            r.retry_delay_ms == self.retry_delay_ms,
            r.retry_count == self.retry_count,
            r.ws == self.ws,
    {
        ReconnectingWebSocket { max_retries: max, ..self }
    }

    /// The same stream with another wait between attempts.
    pub fn with_retry_delay(self, delay_ms: u64) -> (r: ReconnectingWebSocket)
        requires
            self.wf(),
        ensures
            r.wf(),
            r.retry_delay_ms == delay_ms,
            r.markets == self.markets,
            r.max_retries == self.max_retries,
            r.retry_count == self.retry_count,
            r.ws == self.ws,
    {
        ReconnectingWebSocket { retry_delay_ms: delay_ms, ..self }
    }

    /// A successful connection resets the failure counter to zero.
    pub fn on_connection_success(&mut self)
        requires
            old(self).wf(),
        ensures
            final(self).wf(),
            final(self).retry_count == 0,
            final(self).markets == old(self).markets,
            final(self).max_retries == old(self).max_retries,
            final(self).retry_delay_ms == old(self).retry_delay_ms,
            final(self).ws == old(self).ws,
    {
        self.retry_count = 0;
    }

    /// Count one connection failure and say what the run loop does next:
    /// reconnect after the fixed delay while the consecutive failures stay
    /// within the limit, and stop fatally the first time they pass it. After
    /// a fatal step the loop makes no further attempt.
    pub fn on_connection_failure(&mut self) -> (r: StreamStep)
        requires
            old(self).wf(),
            old(self).retry_count <= old(self).max_retries,
        ensures
            final(self).wf(),
            final(self).retry_count == old(self).retry_count + 1,
            final(self).markets == old(self).markets,
            final(self).max_retries == old(self).max_retries,
            final(self).retry_delay_ms == old(self).retry_delay_ms,
            final(self).ws == old(self).ws,
            (r is Fatal) == (old(self).retry_count + 1 > old(self).max_retries),
            r matches StreamStep::RetryAfter { delay_ms } ==> delay_ms == old(
                self,
            ).retry_delay_ms,
    {
        self.retry_count = self.retry_count + 1;
        if self.retry_count > self.max_retries {
            StreamStep::Fatal
        } else {
            StreamStep::RetryAfter { delay_ms: self.retry_delay_ms }
        }
    }

    /// The fatal error the run loop returns once the retry limit is passed.
    pub fn fatal_error(&self) -> (r: TradingError)
        ensures
            r matches TradingError::WebSocket(msg) && msg@ == "Max retries exceeded"@,
    {
        TradingError::WebSocket(String::from_str("Max retries exceeded"))
    }
}

/// Collects real-time ticks for a set of markets over the resilient stream.
pub struct MarketMonitor {
    /// The resilient stream the monitor runs.
    pub ws: ReconnectingWebSocket,
    /// The watched markets.
    pub markets: Vec<String>,
}

impl MarketMonitor {
    /// A monitor for these markets, on a fresh resilient stream.
    pub fn new(markets: Vec<String>) -> (r: MarketMonitor)
        ensures
            r.markets@ == markets@,
            r.ws.wf(),
            r.ws.markets@ == markets@,
            r.ws.retry_count == 0,
            r.ws.max_retries == STREAM_MAX_RETRIES,
    {
        let markets_clone = clone_strings(&markets);
        let ws = ReconnectingWebSocket::new(markets);
        MarketMonitor { ws, markets: markets_clone }
    }
}

} // verus!
