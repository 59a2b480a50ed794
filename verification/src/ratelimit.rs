//! The request rate limiter: a fixed-window counter shared by all outbound
//! exchange calls.
//!
//! Time is handed in by the caller as milliseconds, so the policy itself is
//! fully verified: within one window no more requests proceed than the
//! limit, and a caller over the limit is told exactly how long to wait.

use vstd::prelude::*;

verus! {

/// What a caller must do before its request may go out.
#[derive(Debug, Clone, Copy, PartialEq, Eq, Structural)]
pub enum AcquireStep {
    /// The request may go out now.
    Proceed,
    /// Sleep this many milliseconds first; the request then opens a fresh
    /// window.
    WaitThenProceed { wait_ms: u64 },
}

/// A fixed-window request counter.
pub struct RateLimiter {
    max_requests: u32,
    window_ms: u64,
    window_start_ms: u64,
    request_count: u32,
}

impl RateLimiter {
    /// Requests granted in the current window.
    pub closed spec fn spec_count(&self) -> u32 {
        self.request_count
    }

    /// The request limit per window.
    pub closed spec fn spec_max(&self) -> u32 {
        self.max_requests
    }

    /// The window length in milliseconds.
    pub closed spec fn spec_window_ms(&self) -> u64 {
        self.window_ms
    }

    /// When the current window started, in milliseconds.
    pub closed spec fn spec_window_start(&self) -> u64 {
        self.window_start_ms
    }

    /// What the limiter keeps true: the count never passes the limit, the
    /// limit is positive, and the window is short enough that no deadline
    /// computation can overflow.
    pub open spec fn wf(&self) -> bool {
        &&& 1 <= self.spec_max()
        &&& self.spec_count() <= self.spec_max()
        &&& self.spec_window_ms() <= 0x2000000000000000u64
        &&& self.spec_window_start() <= 0x7fffffffffffffffu64
    }

    /// A fresh limiter whose first window starts at the given time.
    pub fn new(max_requests: u32, window_ms: u64, now_ms: u64) -> (r: RateLimiter)
        requires
            1 <= max_requests,
            window_ms <= 0x2000000000000000u64,
            now_ms <= 0x2000000000000000u64,
        ensures
            r.wf(),
            r.spec_max() == max_requests,
            r.spec_window_ms() == window_ms,
            r.spec_window_start() == now_ms,
            r.spec_count() == 0,
    {
        RateLimiter { max_requests, window_ms, window_start_ms: now_ms, request_count: 0 }
    }

    /// Account one request at the given time.
    ///
    /// When a full window has passed, the request opens a fresh window and
    /// proceeds as its first. Within the window, the request proceeds while
    /// the count is under the limit. At the limit, the caller must wait out
    /// the window's remainder plus one millisecond; the request then counts
    /// as the first of the window that starts when the wait ends.
    pub fn acquire_at(&mut self, now_ms: u64) -> (r: AcquireStep)
        requires
            old(self).wf(),
            now_ms <= 0x2000000000000000u64,
        ensures
            final(self).wf(),
            final(self).spec_max() == old(self).spec_max(),
            final(self).spec_window_ms() == old(self).spec_window_ms(),
            1 <= final(self).spec_count(),
            old(self).spec_elapsed(now_ms) >= old(self).spec_window_ms() ==> (r is Proceed && final(self).spec_count()
                == 1 && final(self).spec_window_start() == now_ms),
            old(self).spec_elapsed(now_ms) < old(self).spec_window_ms() && old(self).spec_count()
                < old(self).spec_max() ==> (r is Proceed && final(self).spec_count()
                == old(self).spec_count() + 1 && final(self).spec_window_start() == old(
                self,
            ).spec_window_start()),
            old(self).spec_elapsed(now_ms) < old(self).spec_window_ms() && old(self).spec_count()
                >= old(self).spec_max() ==> (r matches AcquireStep::WaitThenProceed { wait_ms }
                && wait_ms == old(self).spec_window_ms() - old(self).spec_elapsed(now_ms) + 1
                && final(self).spec_count() == 1 && final(self).spec_window_start() == now_ms
                + wait_ms),
    {
        let elapsed = self.elapsed(now_ms);
        if elapsed >= self.window_ms {
            self.request_count = 1;
            self.window_start_ms = now_ms;
            return AcquireStep::Proceed;
        }
        if self.request_count < self.max_requests {
            self.request_count = self.request_count + 1;
            return AcquireStep::Proceed;
        }
        let wait_ms = self.window_ms - elapsed + 1;
        self.request_count = 1;
        self.window_start_ms = now_ms + wait_ms;
        AcquireStep::WaitThenProceed { wait_ms }
    }

    /// How long the current window has been open at the given time; zero
    /// when the clock stands before the window's start.
    pub open spec fn spec_elapsed(&self, now_ms: u64) -> u64 {
        if now_ms >= self.spec_window_start() {
            (now_ms - self.spec_window_start()) as u64
        } else {
            0u64
        }
    }

    /// Compute the window's age at the given time.
    fn elapsed(&self, now_ms: u64) -> (r: u64)
        ensures
            r == self.spec_elapsed(now_ms),
    {
        if now_ms >= self.window_start_ms {
            now_ms - self.window_start_ms
        } else {
            0
        }
    }
}

} // verus!
