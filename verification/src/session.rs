//! The reconnect supervision every exchange socket shares: when to retry,
//! when to give up, the state the socket is in meanwhile, and the session
//! events a reconnect raises. The socket I/O and the waits run outside.

use vstd::prelude::*;

use crate::events::{InvalidationReason, SessionEvent};
use crate::json::views;
use crate::ws_state::WebSocketState;

verus! {

/// Reconnect attempts after which a socket gives up.
pub const WS_MAX_RECONNECT_ATTEMPTS: u32 = 10;

/// The interval between keep-alive pings, in seconds.
pub const WS_PING_INTERVAL_SECS: u64 = 20;

/// The keep-alive interval of crypto price feeds, in seconds.
pub const WS_CRYPTO_PING_INTERVAL_SECS: u64 = 5;

/// The first reconnect delay, in milliseconds.
pub const WS_RECONNECT_BASE_DELAY_MS: u64 = 3000;

/// The longest reconnect delay, in milliseconds.
pub const WS_RECONNECT_MAX_DELAY_MS: u64 = 60000;

/// Channel sizes of a socket's dispatcher.
#[derive(Debug, Clone, Copy)]
pub struct WsDispatcherConfig {
    /// Capacity of the update channel; on overflow the dispatcher reports a
    /// lag and drops the update.
    pub updates_capacity: usize,
    /// Capacity of the session-event channel; session events are rare and
    /// losing one is a hazard, so it is oversized.
    pub session_capacity: usize,
}

impl Default for WsDispatcherConfig {
    /// 4096 updates, 256 session events.
    fn default() -> (r: Self)
        ensures
            r.updates_capacity == 4096,
            r.session_capacity == 256,
    {
        WsDispatcherConfig { updates_capacity: 4096, session_capacity: 256 }
    }
}

/// What a socket task does next.
#[derive(Debug, Clone, Copy, PartialEq, Eq, Structural)]
pub enum LinkStep {
    /// End the task: the socket was closed on purpose, or reconnecting is
    /// off.
    Stop,
    /// Wait the backoff of this attempt, then reconnect.
    Retry { attempt: u32 },
    /// Every attempt failed.
    GiveUp,
}

/// The reconnect bookkeeping of one socket.
#[derive(Debug, Clone)]
pub struct Supervisor {
    pub attempts: u32,
    pub auto_reconnect: bool,
}

/// The step after an attempt counter has moved to `attempt`.
pub open spec fn step_for(attempt: u32) -> (WebSocketState, LinkStep) {
    if attempt <= WS_MAX_RECONNECT_ATTEMPTS {
        (WebSocketState::Reconnecting, LinkStep::Retry { attempt })
    } else {
        (WebSocketState::Disconnected, LinkStep::GiveUp)
    }
}

impl Supervisor {
    /// A socket with no failed attempts.
    pub fn new(auto_reconnect: bool) -> (r: Self)
        ensures
            r.attempts == 0,
            r.auto_reconnect == auto_reconnect,
    {
        Supervisor { attempts: 0, auto_reconnect }
    }

    /// The socket connected: the count starts over.
    pub fn on_connected(&mut self) -> (r: WebSocketState)
        ensures
            r == WebSocketState::Connected,
            final(self).attempts == 0,
            final(self).auto_reconnect == old(self).auto_reconnect,
    {
        self.attempts = 0;
        WebSocketState::Connected
    }

    /// Counts one more attempt and says whether another may follow.
    fn advance(&mut self) -> (r: (WebSocketState, LinkStep))
        requires
            old(self).attempts < u32::MAX,
        ensures
            final(self).attempts == old(self).attempts + 1,
            final(self).auto_reconnect == old(self).auto_reconnect,
            r == step_for(final(self).attempts),
    {
        self.attempts = self.attempts + 1;
        if self.attempts <= WS_MAX_RECONNECT_ATTEMPTS {
            (WebSocketState::Reconnecting, LinkStep::Retry { attempt: self.attempts })
        } else {
            (WebSocketState::Disconnected, LinkStep::GiveUp)
        }
    }

    /// The first connection of a task was lost while the socket was in
    /// state `current`: a closed socket stops; otherwise it is disconnected
    /// and, when reconnecting is on, retries while attempts remain.
    pub fn on_lost(&mut self, current: WebSocketState) -> (r: (WebSocketState, LinkStep))
        requires
            old(self).attempts < u32::MAX,
        ensures
            final(self).auto_reconnect == old(self).auto_reconnect,
            current == WebSocketState::Closed ==> r == (WebSocketState::Closed, LinkStep::Stop)
                && final(self).attempts == old(self).attempts,
            current != WebSocketState::Closed && !old(self).auto_reconnect ==> r == (
            WebSocketState::Disconnected,
            LinkStep::Stop,
            ) && final(self).attempts == old(self).attempts,
            current != WebSocketState::Closed && old(self).auto_reconnect ==> final(self).attempts
                == old(self).attempts + 1 && r == step_for(final(self).attempts),
    {
        if current == WebSocketState::Closed {
            return (WebSocketState::Closed, LinkStep::Stop);
        }
        if !self.auto_reconnect {
            return (WebSocketState::Disconnected, LinkStep::Stop);
        }
        self.advance()
    }

    /// A reconnect attempt failed.
    pub fn on_reconnect_failed(&mut self) -> (r: (WebSocketState, LinkStep))
        requires
            old(self).attempts < u32::MAX,
        ensures
            final(self).attempts == old(self).attempts + 1,
            final(self).auto_reconnect == old(self).auto_reconnect,
            r == step_for(final(self).attempts),
    {
        self.advance()
    }

    /// A reconnected session ended while the socket was in state `current`:
    /// a closed socket stops, otherwise the attempt counts and the loop
    /// goes on while attempts remain.
    pub fn on_session_ended(&mut self, current: WebSocketState) -> (r: (WebSocketState, LinkStep))
        requires
            old(self).attempts < u32::MAX,
        ensures
            final(self).auto_reconnect == old(self).auto_reconnect,
            current == WebSocketState::Closed ==> r == (WebSocketState::Closed, LinkStep::Stop)
                && final(self).attempts == old(self).attempts,
            current != WebSocketState::Closed ==> final(self).attempts == old(self).attempts + 1
                && r == step_for(final(self).attempts),
    {
        if current == WebSocketState::Closed {
            return (WebSocketState::Closed, LinkStep::Stop);
        }
        self.advance()
    }

    /// The reconnect request could not be built: the loop ends.
    pub fn on_request_failed(&self) -> (r: (WebSocketState, LinkStep))
        ensures
            r == (WebSocketState::Disconnected, LinkStep::GiveUp),
    {
        (WebSocketState::Disconnected, LinkStep::GiveUp)
    }
}

/// Whether `e` invalidates the book of `market` after a reconnect.
pub open spec fn invalidates_for_reconnect(e: SessionEvent, market: Seq<char>) -> bool {
    e matches SessionEvent::BookInvalidated { market_id, reason } && market_id@ == market && reason
        == InvalidationReason::Reconnect
}

/// The session events of a reconnect: one `Reconnected` for the outage,
/// then one `BookInvalidated` per subscribed market, in order.
pub open spec fn is_reconnect_notice(evs: Seq<SessionEvent>, gap_ms: u64, markets: Seq<Seq<char>>) -> bool {
    &&& evs.len() == markets.len() + 1
    &&& evs[0] == SessionEvent::Reconnected { gap_ms }
    &&& forall|i: int|
        0 <= i < markets.len() ==> invalidates_for_reconnect(#[trigger] evs[i + 1], markets[i])
}

/// The session events to raise once a socket is back.
pub fn reconnect_notices(gap: std::time::Duration, markets: &Vec<String>) -> (r: Vec<SessionEvent>)
    ensures
        is_reconnect_notice(
            r@,
            crate::events::saturate_u64(crate::events::duration_millis(gap)),
            views(markets@),
        ),
{
    let mut out: Vec<SessionEvent> = Vec::new();
    out.push(SessionEvent::reconnected(gap));
    let mut i: usize = 0;
    while i < markets.len()
        invariant
            i <= markets.len(),
            out@.len() == i + 1,
            out@[0] == (SessionEvent::Reconnected {
                gap_ms: crate::events::saturate_u64(crate::events::duration_millis(gap)),
            }),
            forall|k: int|
                0 <= k < i ==> invalidates_for_reconnect(#[trigger] out@[k + 1], markets@[k]@),
        decreases markets.len() - i,
    {
        out.push(
            SessionEvent::BookInvalidated {
                market_id: markets[i].clone(),
                reason: InvalidationReason::Reconnect,
            },
        );
        i = i + 1;
    }
    proof {
        assert forall|k: int| 0 <= k < markets@.len() implies invalidates_for_reconnect(
            #[trigger] out@[k + 1],
            views(markets@)[k],
        ) by {
            assert(invalidates_for_reconnect(out@[k + 1], markets@[k]@));
        }
    }
    out
}

} // verus!
