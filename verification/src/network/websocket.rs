//! Rate limiting of the WebSocket telemetry (`network.toml`, section
//! `websocket`, `telemetry_interval_ms`).
//!
//! Frames go out through a [`TelemetryChannel`], which the application
//! implements over its server API. Time is a millisecond clock reading that
//! the caller passes in.
use crate::error::AppResult;
use vstd::prelude::*;

verus! {

/// Channel that hands a finished JSON message to every connected
/// WebSocket client; the application implements it over its server API.
pub trait TelemetryChannel {
    /// The messages sent so far, oldest first.
    spec fn sent(&self) -> Seq<Seq<char>>;

    /// Sends `json` to all connected clients; a successful send adds it to
    /// the messages sent.
    fn broadcast(&mut self, json: &str) -> (r: AppResult<()>)
        ensures
            r is Ok ==> final(self).sent() == old(self).sent().push(json@),
    ;
}

/// Time elapsed from `last` to `now`, zero when the clock reads earlier.
pub open spec fn elapsed_ms(last: u64, now: u64) -> nat {
    if now >= last {
        (now - last) as nat
    } else {
        0
    }
}

/// Whether a frame is due at `now` given when the last one was sent.
pub open spec fn frame_due(last_sent: Option<u64>, interval_ms: u64, now: u64) -> bool {
    match last_sent {
        None => true,
        Some(last) => elapsed_ms(last, now) >= interval_ms,
    }
}

/// Sends telemetry frames no more often than once per interval, however
/// often [`TelemetryBroadcaster::maybe_send`] is called.
pub struct TelemetryBroadcaster<C: TelemetryChannel> {
    channel: C,
    interval_ms: u64,
    last_sent_ms: Option<u64>,
}

impl<C: TelemetryChannel> TelemetryBroadcaster<C> {
    /// The channel frames go out through.
    pub closed spec fn spec_channel(self) -> C {
        self.channel
    }

    /// Minimum interval between frames, milliseconds.
    pub closed spec fn spec_interval_ms(self) -> u64 {
        self.interval_ms
    }

    /// Clock reading of the last frame sent, if any since the last reset.
    pub closed spec fn spec_last_sent(self) -> Option<u64> {
        self.last_sent_ms
    }

    /// A broadcaster with the given minimum interval that has sent nothing.
    pub fn new(channel: C, interval_ms: u64) -> (b: Self)
        ensures
            b.spec_channel() == channel,
            b.spec_interval_ms() == interval_ms,
            b.spec_last_sent() is None,
    {
        TelemetryBroadcaster { channel, interval_ms, last_sent_ms: None }
    }

    /// Whether a frame is due at `now_ms`.
    pub fn is_due(&self, now_ms: u64) -> (due: bool)
        ensures
            due == frame_due(self.spec_last_sent(), self.spec_interval_ms(), now_ms),
    {
        match self.last_sent_ms {
            None => true,
            Some(last) => {
                let elapsed: u64 = if now_ms >= last {
                    now_ms - last
                } else {
                    0
                };
                elapsed >= self.interval_ms
            },
        }
    }

    /// Sends `json` if a frame is due at `now_ms`, and returns whether it
    /// was sent. A channel error is returned as is and counts as no frame.
    pub fn maybe_send(&mut self, now_ms: u64, json: &str) -> (r: AppResult<bool>)
        ensures
            final(self).spec_interval_ms() == old(self).spec_interval_ms(),
            !frame_due(old(self).spec_last_sent(), old(self).spec_interval_ms(), now_ms) ==> (r
                matches Ok(sent) && !sent) && final(self).spec_last_sent() == old(
                self,
            ).spec_last_sent() && final(self).spec_channel() == old(self).spec_channel(),
            frame_due(old(self).spec_last_sent(), old(self).spec_interval_ms(), now_ms) && r is Ok
                ==> final(self).spec_channel().sent() == old(self).spec_channel().sent().push(json@),
            frame_due(old(self).spec_last_sent(), old(self).spec_interval_ms(), now_ms) ==> ((r
                matches Ok(sent) && sent && final(self).spec_last_sent() == Some(now_ms)) || (r is Err
                && final(self).spec_last_sent() == old(self).spec_last_sent())),
    {
        if !self.is_due(now_ms) {
            return Ok(false);
        }
        match self.channel.broadcast(json) {
            Ok(()) => {
                self.last_sent_ms = Some(now_ms);
                Ok(true)
            },
            Err(e) => Err(e),
        }
    }

    /// Makes the next [`TelemetryBroadcaster::maybe_send`] send whatever
    /// the interval (a newly connected client gets a frame at once).
    pub fn force_next_send(&mut self)
        ensures
            final(self).spec_last_sent() is None,
            final(self).spec_interval_ms() == old(self).spec_interval_ms(),
            final(self).spec_channel() == old(self).spec_channel(),
    {
        self.last_sent_ms = None;
    }
}

/// Rate law: after a frame sent at `sent_at`, no frame is due before the
/// interval has elapsed, and one is due once it has; with no frame sent
/// (or after a forced send) a frame is always due.
pub proof fn lemma_rate_limit(interval_ms: u64, sent_at: u64, now: u64)
    ensures
        sent_at <= now < sent_at + interval_ms ==> !frame_due(Some(sent_at), interval_ms, now),
        sent_at + interval_ms <= now ==> frame_due(Some(sent_at), interval_ms, now),
        frame_due(None, interval_ms, now),
{
}

} // verus!
