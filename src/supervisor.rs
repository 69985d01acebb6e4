//! The connection lifecycle: opening the event stream, loading the snapshot
//! it starts with, answering heartbeats, handing messages on, and
//! reconnecting with a capped exponential backoff when the stream ends.

use vstd::prelude::*;

use crate::cache::{records_map, EntityCache, ResourceType};
use crate::text::{decimal, push_decimal};

verus! {

/// How long a heartbeat waits before it is sent back, in seconds.
pub const HEARTBEAT_DELAY: u64 = 10;

/// The longest wait before a reconnection, in seconds.
pub const MAX_RECONNECT_DELAY: u64 = 64;

/// Where the connection stands.
#[derive(Clone, Copy, Debug, PartialEq, Eq, Structural)]
pub enum ConnectionState {
    Disconnected,
    Connecting,
    AwaitingSnapshot,
    Live,
}

/// The bulk listing the platform sends when a connection is ready: (id,
/// record) pairs for each kind of entity.
#[derive(Clone, Debug)]
pub struct Snapshot {
    pub users: Vec<(String, String)>,
    pub servers: Vec<(String, String)>,
    pub channels: Vec<(String, String)>,
    pub emojis: Vec<(String, String)>,
}

/// A chat message as the stream delivers it.
#[derive(Clone, Debug)]
pub struct InboundMessage {
    pub author: String,
    pub conversation: String,
    pub text: String,
    pub message_id: String,
}

/// One event of the stream.
#[derive(Clone, Debug)]
pub enum InboundEvent {
    Ready(Snapshot),
    Heartbeat(usize),
    Message(InboundMessage),
    Other,
}

/// What the supervisor asks of the code that runs the connection.
#[derive(Clone, Debug)]
pub enum SupervisorAction {
    /// Send `Heartbeat(token)` after `delay` seconds, without holding up the stream.
    SendHeartbeat { token: usize, delay: u64 },
    /// Set the bot's status text.
    UpdateStatus(String),
    /// Hand the message to the command router, without holding up the stream.
    Dispatch(InboundMessage),
}

/// 2 to the power `n`.
pub open spec fn pow2(n: nat) -> nat
    decreases n,
{
    if n == 0 {
        1
    } else {
        2 * pow2((n - 1) as nat)
    }
}

/// The wait before reconnecting when the stream has ended `failures` times
/// since the last snapshot: 1, 2, 4, ... seconds, at most 64.
pub open spec fn backoff(failures: nat) -> nat {
    if failures >= 6 {
        MAX_RECONNECT_DELAY as nat
    } else {
        pow2(failures)
    }
}

/// The status text that reports the number of servers.
pub open spec fn status_text_of(servers: nat) -> Seq<char> {
    "servers: "@ + decimal(servers)
}

/// The status text that reports the number of servers.
pub fn status_text(servers: usize) -> (r: String)
    ensures
        r@ == status_text_of(servers as nat),
{
    let mut r = "servers: ".to_owned();
    push_decimal(&mut r, servers as u64);
    r
}

/// The wait before the next reconnection.
pub fn reconnect_delay(failures: u32) -> (r: u64)
    ensures
        r == backoff(failures as nat),
        1 <= r <= MAX_RECONNECT_DELAY,
{
    if failures >= 6 {
        return MAX_RECONNECT_DELAY;
    }
    let mut r: u64 = 1;
    let mut i: u32 = 0;
    while i < failures
        invariant
            failures < 6,
            i <= failures,
            r == pow2(i as nat),
            1 <= r <= 32,
        decreases failures - i,
    {
        assert(pow2((i + 1) as nat) == 2 * pow2(i as nat));
        assert(i < 5 ==> r <= 16) by {
            assert(pow2(0) == 1);
            assert(pow2(1) == 2);
            assert(pow2(2) == 4);
            assert(pow2(3) == 8);
            assert(pow2(4) == 16);
        };
        r = r * 2;
        i = i + 1;
    }
    r
}

/// The connection's state, and how many times the stream has ended since the
/// last snapshot arrived.
pub struct ConnectionSupervisor {
    pub state: ConnectionState,
    pub failures: u32,
}

impl ConnectionSupervisor {
    /// No connection yet.
    pub fn new() -> (r: ConnectionSupervisor)
        ensures
            r.state == ConnectionState::Disconnected,
            r.failures == 0,
    {
        ConnectionSupervisor { state: ConnectionState::Disconnected, failures: 0 }
    }

    /// The stream is being opened.
    pub fn connect(&mut self)
        ensures
            final(self).state == ConnectionState::Connecting,
            final(self).failures == old(self).failures,
    {
        self.state = ConnectionState::Connecting;
    }

    /// The stream is open: wait for its snapshot.
    pub fn stream_opened(&mut self)
        ensures
            final(self).state == ConnectionState::AwaitingSnapshot,
            final(self).failures == old(self).failures,
    {
        self.state = ConnectionState::AwaitingSnapshot;
    }

    /// The stream ended, by an error or a close. The cache is kept until the
    /// next snapshot replaces it. Returns the wait before reconnecting.
    pub fn stream_closed(&mut self) -> (r: u64)
        ensures
            final(self).state == ConnectionState::Disconnected,
            r == backoff(old(self).failures as nat),
            final(self).failures == if old(self).failures == u32::MAX {
                old(self).failures
            } else {
                (old(self).failures + 1) as u32
            },
    {
        let r = reconnect_delay(self.failures);
        self.state = ConnectionState::Disconnected;
        if self.failures < u32::MAX {
            self.failures = self.failures + 1;
        }
        r
    }

    /// Handles one event of an open stream, and says what to do next.
    /// The snapshot replaces the cache for each kind it lists and makes the
    /// connection live; a live connection answers each heartbeat after a
    /// delay and hands each message on. Anything else changes nothing.
    pub fn on_event(&mut self, cache: &mut EntityCache, event: InboundEvent) -> (r: Vec<SupervisorAction>)
        ensures
            match event {
                InboundEvent::Ready(snapshot) => if old(self).state == ConnectionState::AwaitingSnapshot
                    || old(self).state == ConnectionState::Live {
                    &&& final(self).state == ConnectionState::Live
                    &&& final(self).failures == 0
                    &&& final(cache).model(ResourceType::User).entries == records_map(snapshot.users@)
                    &&& final(cache).model(ResourceType::Server).entries == records_map(snapshot.servers@)
                    &&& final(cache).model(ResourceType::Channel).entries == records_map(snapshot.channels@)
                    &&& final(cache).model(ResourceType::Emoji).entries == records_map(snapshot.emojis@)
                    &&& final(cache).model(ResourceType::Member) == old(cache).model(ResourceType::Member)
                    &&& forall|k: ResourceType| #[trigger] final(cache).model(k).pending == old(cache).model(k).pending
                    &&& r@.len() == 2
                    &&& r@[0] matches SupervisorAction::UpdateStatus(s)
                    &&& s@ == status_text_of(records_map(snapshot.servers@).len())
                    &&& r@[1] matches SupervisorAction::SendHeartbeat { token, delay }
                    &&& token == 0 && delay == 0
                } else {
                    *final(self) == *old(self) && *final(cache) == *old(cache) && r@.len() == 0
                },
                InboundEvent::Heartbeat(token) => {
                    &&& *final(self) == *old(self)
                    &&& *final(cache) == *old(cache)
                    &&& if old(self).state == ConnectionState::Live {
                        r@ == seq![SupervisorAction::SendHeartbeat { token, delay: HEARTBEAT_DELAY }]
                    } else {
                        r@.len() == 0
                    }
                },
                InboundEvent::Message(m) => {
                    &&& *final(self) == *old(self)
                    &&& *final(cache) == *old(cache)
                    &&& if old(self).state == ConnectionState::Live {
                        r@ == seq![SupervisorAction::Dispatch(m)]
                    } else {
                        r@.len() == 0
                    }
                },
                InboundEvent::Other => *final(self) == *old(self) && *final(cache) == *old(cache)
                    && r@.len() == 0,
            },
    {
        let live = self.state == ConnectionState::Live;
        let mut r: Vec<SupervisorAction> = Vec::new();
        match event {
            InboundEvent::Ready(snapshot) => {
                if live || self.state == ConnectionState::AwaitingSnapshot {
                    let Snapshot { users, servers, channels, emojis } = snapshot;
                    cache.bulk_load(ResourceType::User, users);
                    cache.bulk_load(ResourceType::Server, servers);
                    cache.bulk_load(ResourceType::Channel, channels);
                    cache.bulk_load(ResourceType::Emoji, emojis);
                    self.state = ConnectionState::Live;
                    self.failures = 0;
                    let count = cache.len(ResourceType::Server);
                    r.push(SupervisorAction::UpdateStatus(status_text(count)));
                    r.push(SupervisorAction::SendHeartbeat { token: 0, delay: 0 });
                }
            },
            InboundEvent::Heartbeat(token) => {
                if live {
                    r.push(SupervisorAction::SendHeartbeat { token, delay: HEARTBEAT_DELAY });
                }
            },
            InboundEvent::Message(m) => {
                if live {
                    r.push(SupervisorAction::Dispatch(m));
                }
            },
            InboundEvent::Other => {},
        }
        r
    }
}

} // verus!
