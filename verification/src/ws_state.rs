//! WebSocket connection state and its lock-free holder.

use vstd::prelude::*;

verus! {

/// Connection state shared by every exchange WebSocket driver.
#[derive(Debug, Clone, Copy, PartialEq, Eq, Structural)]
pub enum WebSocketState {
    Disconnected,
    Connecting,
    Connected,
    Reconnecting,
    Closed,
}

/// The byte each state is stored as.
pub open spec fn state_code(s: WebSocketState) -> u8 {
    match s {
        WebSocketState::Disconnected => 0,
        WebSocketState::Connecting => 1,
        WebSocketState::Connected => 2,
        WebSocketState::Reconnecting => 3,
        WebSocketState::Closed => 4,
    }
}

/// The state a stored byte stands for; unknown bytes read as `Disconnected`.
pub open spec fn state_of_code(v: u8) -> WebSocketState {
    if v == 1 {
        WebSocketState::Connecting
    } else if v == 2 {
        WebSocketState::Connected
    } else if v == 3 {
        WebSocketState::Reconnecting
    } else if v == 4 {
        WebSocketState::Closed
    } else {
        WebSocketState::Disconnected
    }
}

/// The stable label of each state.
pub open spec fn state_label(s: WebSocketState) -> Seq<char> {
    match s {
        WebSocketState::Disconnected => "Disconnected"@,
        WebSocketState::Connecting => "Connecting"@,
        WebSocketState::Connected => "Connected"@,
        WebSocketState::Reconnecting => "Reconnecting"@,
        WebSocketState::Closed => "Closed"@,
    }
}

impl WebSocketState {
    /// Decodes a stored byte; every byte other than 1..=4 is `Disconnected`.
    pub fn from_u8(v: u8) -> (s: Self)
        ensures
            s == state_of_code(v),
    {
        match v {
            1 => WebSocketState::Connecting,
            2 => WebSocketState::Connected,
            3 => WebSocketState::Reconnecting,
            4 => WebSocketState::Closed,
            _ => WebSocketState::Disconnected,
        }
    }

    /// The byte this state is stored as.
    pub fn as_u8(self) -> (v: u8)
        ensures
            v == state_code(self),
    {
        match self {
            WebSocketState::Disconnected => 0,
            WebSocketState::Connecting => 1,
            WebSocketState::Connected => 2,
            WebSocketState::Reconnecting => 3,
            WebSocketState::Closed => 4,
        }
    }

    /// Stable string label, identical to the variant name.
    pub fn as_str(self) -> (r: &'static str)
        ensures
            r@ == state_label(self),
    {
        match self {
            WebSocketState::Disconnected => "Disconnected",
            WebSocketState::Connecting => "Connecting",
            WebSocketState::Connected => "Connected",
            WebSocketState::Reconnecting => "Reconnecting",
            WebSocketState::Closed => "Closed",
        }
    }
}

/// Storing a state as its byte and decoding the byte gives the state back.
pub proof fn lemma_state_code_round_trip(s: WebSocketState)
    ensures
        state_of_code(state_code(s)) == s,
{
}

/// Each byte decodes to a state whose byte is itself, except bytes above 4,
/// which all decode to `Disconnected`.
pub proof fn lemma_state_code_canonical(v: u8)
    ensures
        v <= 4 ==> state_code(state_of_code(v)) == v,
        v > 4 ==> state_of_code(v) == WebSocketState::Disconnected,
{
}

/// Lock-free holder of a `WebSocketState`, readable without any async lock.
///
/// The byte inside is shared between tasks: what `load` returns depends on
/// the stores other tasks made, so no clause ties it to an earlier `store`.
pub struct AtomicWebSocketState(std::sync::atomic::AtomicU8);

impl AtomicWebSocketState {
    /// A holder whose byte is the code of `state`.
    pub fn new(state: WebSocketState) -> Self {
        AtomicWebSocketState(std::sync::atomic::AtomicU8::new(state.as_u8()))
    }

    /// Reads the current state (acquire ordering).
    pub fn load(&self) -> WebSocketState {
        let v = self.0.load(std::sync::atomic::Ordering::Acquire);
        WebSocketState::from_u8(v)
    }

    /// Publishes `state` (release ordering).
    pub fn store(&self, state: WebSocketState) {
        self.0.store(state.as_u8(), std::sync::atomic::Ordering::Release);
    }
}

} // verus!
