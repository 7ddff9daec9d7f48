//! The receive/heartbeat/timeout session as a state machine: the caller
//! owns the socket and the timer, reports what happened as an `Event`, and
//! performs the `Action`s that come back in order.
use vstd::prelude::*;
use crate::cipher::{decrypted, salsa20_dec};
use crate::telemetry::{decoded, DecodeError, GTData, RECORD_LEN};

verus! {

/// Port the telemetry arrives on.
pub const RECV_PORT: u16 = 33740;

/// Port of the peer that heartbeats go to.
pub const SEND_PORT: u16 = 33739;

/// The single byte a heartbeat datagram carries: ASCII 'A'.
pub const HEARTBEAT_BYTE: u8 = 0x41;

/// Seconds of silence after which the socket is rebound.
pub const TIMEOUT_SECS: u64 = 5;

/// The received-datagram counter returns to zero after passing this value.
pub const COUNTER_WRAP: u8 = 100;

/// What happened since the last step.
pub enum Event {
    /// The socket became readable.
    Readable,
    /// A datagram was read.
    Datagram(Vec<u8>),
    /// A read found nothing after all.
    WouldBlock,
    /// A read failed.
    ReadFailed,
    /// The inactivity timer elapsed first.
    Timeout,
}

/// What the caller is to do, in the order given.
#[derive(Debug, PartialEq, Eq)]
pub enum Action {
    /// Send one heartbeat datagram to the peer's send port.
    SendHeartbeat,
    /// Attempt one non-blocking read.
    Receive,
    /// Publish a record to the subscribers.
    Publish(GTData),
    /// A decrypted packet was too short to decode; report it.
    Discard(DecodeError),
    /// Report the failed read; the session goes on.
    ReportReadError,
    /// Report the timeout.
    ReportTimeout,
    /// Release the socket and bind a fresh one on the receive port.
    Rebind,
}

/// When a readiness wake sends a heartbeat.
#[derive(Debug, Clone, Copy, PartialEq, Eq, Structural)]
pub enum HeartbeatPolicy {
    /// On every readiness wake while the received-datagram counter is zero.
    /// A reachable but silent peer can then receive repeated heartbeats.
    WhileCounterZero,
    /// Never on a readiness wake: only right after a rebind.
    OnReconnectOnly,
}

pub struct Session {
    policy: HeartbeatPolicy,
    recv_port: u16,
    send_port: u16,
    playstation_ip: String,
    last_package_id: i32,
    package_nr: u8,
}

/// Whether a record with package id `id` is published after `last`.
pub open spec fn publishes(last: i32, id: i32) -> bool {
    id > last
}

/// The received-datagram counter after one more datagram.
pub open spec fn next_count(n: u8) -> u8 {
    if n + 1 > COUNTER_WRAP {
        0
    } else {
        (n + 1) as u8
    }
}

/// Actions for a decrypted packet `d` (empty when decryption rejected it),
/// given the last published package id.
pub open spec fn packet_actions(last: i32, d: Seq<u8>) -> Seq<Action> {
    if d.len() == 0 {
        Seq::empty()
    } else if d.len() < RECORD_LEN {
        seq![Action::Discard(DecodeError::TooShort { len: d.len() as usize })]
    } else if publishes(last, decoded(d).package_id) {
        seq![Action::Publish(decoded(d))]
    } else {
        Seq::empty()
    }
}

/// The last published package id after decrypted packet `d`.
pub open spec fn packet_last(last: i32, d: Seq<u8>) -> i32 {
    if d.len() >= RECORD_LEN && publishes(last, decoded(d).package_id) {
        decoded(d).package_id
    } else {
        last
    }
}

/// Actions on a readiness wake: a heartbeat first when the policy sends one
/// while the counter is zero and it is, then a read.
pub open spec fn readable_actions(policy: HeartbeatPolicy, n: u8) -> Seq<Action> {
    if policy == HeartbeatPolicy::WhileCounterZero && n == 0 {
        seq![Action::SendHeartbeat, Action::Receive]
    } else {
        seq![Action::Receive]
    }
}

/// Actions on a timeout: report it, rebind, then send one heartbeat.
pub open spec fn timeout_actions() -> Seq<Action> {
    seq![Action::ReportTimeout, Action::Rebind, Action::SendHeartbeat]
}

/// The package ids published, in order, when decodable packets carrying
/// `ids` arrive one after another after `last` was published.
pub open spec fn published_ids(last: i32, ids: Seq<i32>) -> Seq<i32>
    decreases ids.len(),
{
    if ids.len() == 0 {
        Seq::empty()
    } else if publishes(last, ids[0]) {
        seq![ids[0]] + published_ids(ids[0], ids.drop_first())
    } else {
        published_ids(last, ids.drop_first())
    }
}

/// Published package ids are strictly increasing and all exceed the id
/// published before the run: duplicates and stale packets never get through.
pub proof fn lemma_published_strictly_increasing(last: i32, ids: Seq<i32>)
    ensures
        forall|k: int| 0 <= k < published_ids(last, ids).len() ==> published_ids(last, ids)[k] > last,
        forall|j: int, k: int|
            0 <= j < k < published_ids(last, ids).len() ==> published_ids(last, ids)[j]
                < published_ids(last, ids)[k],
    decreases ids.len(),
{
    if ids.len() > 0 {
        if publishes(last, ids[0]) {
            lemma_published_strictly_increasing(ids[0], ids.drop_first());
            let rest = published_ids(ids[0], ids.drop_first());
            let all = published_ids(last, ids);
            assert(all == seq![ids[0]] + rest);
            assert forall|k: int| 0 < k < all.len() implies all[k] == rest[k - 1] by {}
            assert forall|k: int| 0 <= k < all.len() implies all[k] > last by {
                if k > 0 {
                    assert(rest[k - 1] > ids[0]);
                }
            }
            assert forall|j: int, k: int| 0 <= j < k < all.len() implies all[j] < all[k] by {
                assert(rest[k - 1] > ids[0]);
                if j > 0 {
                    assert(rest[j - 1] < rest[k - 1]);
                }
            }
        } else {
            lemma_published_strictly_increasing(last, ids.drop_first());
            assert(published_ids(last, ids) == published_ids(last, ids.drop_first()));
        }
    } else {
        assert(published_ids(last, ids) =~= Seq::<i32>::empty());
    }
}

impl Session {
    pub closed spec fn last_id(&self) -> i32 {
        self.last_package_id
    }

    pub closed spec fn policy(&self) -> HeartbeatPolicy {
        self.policy
    }

    pub closed spec fn count(&self) -> u8 {
        self.package_nr
    }

    pub closed spec fn spec_recv_port(&self) -> u16 {
        self.recv_port
    }

    pub closed spec fn spec_send_port(&self) -> u16 {
        self.send_port
    }

    pub closed spec fn peer_ip(&self) -> Seq<char> {
        self.playstation_ip@
    }

    pub closed spec fn wf(&self) -> bool {
        self.package_nr <= COUNTER_WRAP
    }

    /// A fresh session: nothing published yet and the counter at zero, so the
    /// first readiness wake sends a heartbeat.
    pub fn new(recv_port: u16, send_port: u16, playstation_ip: String) -> (r: Session)
        ensures
            r.wf(),
            r.policy() == HeartbeatPolicy::WhileCounterZero,
            r.last_id() == 0,
            r.count() == 0,
            r.recv_port() == recv_port,
            r.send_port() == send_port,
            r.peer_ip() == playstation_ip@,
    {
        Session::with_policy(recv_port, send_port, playstation_ip, HeartbeatPolicy::WhileCounterZero)
    }

    /// A fresh session that sends heartbeats as `policy` says.
    pub fn with_policy(
        recv_port: u16,
        send_port: u16,
        playstation_ip: String,
        policy: HeartbeatPolicy,
    ) -> (r: Session)
        ensures
            r.wf(),
            r.policy() == policy,
            r.last_id() == 0,
            r.count() == 0,
            r.recv_port() == recv_port,
            r.send_port() == send_port,
            r.peer_ip() == playstation_ip@,
    {
        Session { policy, recv_port, send_port, playstation_ip, last_package_id: 0, package_nr: 0 }
    }

    /// Port the socket binds to, and rebinds to after a timeout.
    #[verifier::when_used_as_spec(spec_recv_port)]
    pub fn recv_port(&self) -> (r: u16)
        ensures
            r == self.spec_recv_port(),
    {
        self.recv_port
    }

    /// Port of the peer that heartbeats go to.
    #[verifier::when_used_as_spec(spec_send_port)]
    pub fn send_port(&self) -> (r: u16)
        ensures
            r == self.spec_send_port(),
    {
        self.send_port
    }

    /// Address of the peer that heartbeats go to.
    pub fn playstation_ip(&self) -> (r: &str)
        ensures
            r@ == self.peer_ip(),
    {
        self.playstation_ip.as_str()
    }

    /// Handles a decrypted packet: publishes it when it decodes and its
    /// package id exceeds the last one published.
    pub fn on_decrypted(&mut self, ddata: &[u8]) -> (r: Vec<Action>)
        ensures
            r@ == packet_actions(old(self).last_id(), ddata@),
            final(self).last_id() == packet_last(old(self).last_id(), ddata@),
            final(self).count() == old(self).count(),
            final(self).policy() == old(self).policy(),
            final(self).recv_port() == old(self).recv_port(),
            final(self).send_port() == old(self).send_port(),
            final(self).peer_ip() == old(self).peer_ip(),
    {
        let mut r: Vec<Action> = Vec::new();
        if ddata.len() == 0 {
            return r;
        }
        match GTData::decode(ddata) {
            Err(e) => {
                r.push(Action::Discard(e));
            },
            Ok(rec) => {
                if rec.package_id > self.last_package_id {
                    self.last_package_id = rec.package_id;
                    r.push(Action::Publish(rec));
                }
            },
        }
        assert(r@ =~= packet_actions(old(self).last_id(), ddata@));
        r
    }

    /// One step of the session.
    pub fn step(&mut self, ev: Event) -> (r: Vec<Action>)
        requires
            old(self).wf(),
        ensures
            final(self).wf(),
            final(self).policy() == old(self).policy(),
            final(self).recv_port() == old(self).recv_port(),
            final(self).send_port() == old(self).send_port(),
            final(self).peer_ip() == old(self).peer_ip(),
            match ev {
                Event::Readable => r@ == readable_actions(old(self).policy(), old(self).count())
                    && final(self).count() == old(self).count()
                    && final(self).last_id() == old(self).last_id(),
                Event::Datagram(raw) => r@ == packet_actions(old(self).last_id(), decrypted(raw@))
                    && final(self).count() == next_count(old(self).count())
                    && final(self).last_id() == packet_last(old(self).last_id(), decrypted(raw@)),
                Event::WouldBlock => r@.len() == 0
                    && final(self).count() == old(self).count()
                    && final(self).last_id() == old(self).last_id(),
                Event::ReadFailed => r@ == seq![Action::ReportReadError]
                    && final(self).count() == old(self).count()
                    && final(self).last_id() == old(self).last_id(),
                Event::Timeout => r@ == timeout_actions()
                    && final(self).count() == old(self).count()
                    && final(self).last_id() == old(self).last_id(),
            },
    {
        let mut r: Vec<Action> = Vec::new();
        match ev {
            Event::Readable => {
                if self.policy == HeartbeatPolicy::WhileCounterZero && self.package_nr == 0 {
                    r.push(Action::SendHeartbeat);
                }
                r.push(Action::Receive);
                assert(r@ =~= readable_actions(self.policy, self.package_nr));
            },
            Event::Datagram(raw) => {
                self.package_nr = if self.package_nr + 1 > COUNTER_WRAP {
                    0
                } else {
                    self.package_nr + 1
                };
                let d = salsa20_dec(raw.as_slice());
                r = self.on_decrypted(d.as_slice());
            },
            Event::WouldBlock => {},
            Event::ReadFailed => {
                r.push(Action::ReportReadError);
                assert(r@ =~= seq![Action::ReportReadError]);
            },
            Event::Timeout => {
                r.push(Action::ReportTimeout);
                r.push(Action::Rebind);
                r.push(Action::SendHeartbeat);
                assert(r@ =~= timeout_actions());
            },
        }
        r
    }
}

} // verus!
