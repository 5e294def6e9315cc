//! The bookkeeping of an MQTT connection: packet identifiers and the
//! requests that wait for the broker's acknowledgement.
use vstd::prelude::*;
use std::collections::BTreeMap;

use super::QualityOfService;

verus! {

broadcast use vstd::std_specs::btree::group_btree_axioms;

/// The quality of service of an outgoing publish packet, with its packet
/// identifier when it needs one.
#[derive(Clone, Copy, Debug, PartialEq, Eq, Structural)]
pub enum QoSWithPacketIdentifier {
    Level0,
    Level1(u16),
    Level2(u16),
}

/// A packet received from the broker, as far as the connection cares.
#[derive(Clone, Copy, Debug, PartialEq, Eq, Structural)]
pub enum Incoming {
    /// A ping response.
    Pingresp,
    /// A message published on a subscription.
    Publish,
    /// The acknowledgement of a publish packet.
    Puback(u16),
    /// The acknowledgement of a subscribe packet.
    Suback(u16),
    /// Any other packet.
    Other,
}

/// What the reading side does with a packet.
pub enum ReadAction<R> {
    /// Tell the keep alive timer that the broker answered.
    NotifyTimer,
    /// Hand the message to the subscribers.
    Enqueue,
    /// Answer the request that waited for this acknowledgement.
    Respond(R),
    /// An acknowledgement that no request waits for.
    UnknownPacketIdentifier(u16),
    /// Nothing to do.
    Ignore,
}

/// The packet identifier that follows `pid`, wrapping to 0 after 65535.
pub open spec fn pid_after(pid: u16) -> u16 {
    if pid == u16::MAX {
        0
    } else {
        (pid + 1) as u16
    }
}

/// The state shared by the tasks of a connection.
pub struct ConnectionState<R> {
    /// Requests that await a confirmation from the server, by packet identifier.
    outstanding: BTreeMap<u16, R>,
    /// The last packet identifier used.
    last_pid: u16,
}

impl<R> ConnectionState<R> {
    /// The requests that await a confirmation, by packet identifier.
    pub closed spec fn outstanding(&self) -> Map<u16, R> {
        self.outstanding@
    }

    /// The last packet identifier used.
    pub closed spec fn last_pid(&self) -> u16 {
        self.last_pid
    }

    /// A connection with no request in flight.
    pub fn new() -> (r: Self)
        ensures
            r.outstanding() == Map::<u16, R>::empty(),
            r.last_pid() == 0,
    {
        ConnectionState { outstanding: BTreeMap::new(), last_pid: 0 }
    }

    /// The next packet identifier. Identifiers increase and wrap to 0 after
    /// 65535.
    pub fn next_pid(&mut self) -> (r: u16)
        ensures
            r == pid_after(old(self).last_pid()),
            final(self).last_pid() == r,
            final(self).outstanding() == old(self).outstanding(),
    {
        let pid = self.last_pid.wrapping_add(1);
        self.last_pid = pid;
        pid
    }

    /// Decides the quality of service of a publish packet. A packet of level
    /// 1 gets the next packet identifier, and `response` waits for its
    /// acknowledgement; the result tells whether it replaced another request.
    ///
    /// Level 2, and level 1 without a request to answer, are not supported.
    pub fn publish_qos(&mut self, qos: QualityOfService, response: Option<R>) -> (r: (
        QoSWithPacketIdentifier,
        bool,
    ))
        requires
            qos == QualityOfService::Level0 || (qos == QualityOfService::Level1 && response is Some),
        ensures
            qos == QualityOfService::Level0 ==> r == (QoSWithPacketIdentifier::Level0, false)
                && final(self).outstanding() == old(self).outstanding() && final(self).last_pid()
                == old(self).last_pid(),
            qos == QualityOfService::Level1 ==> ({
                let pid = pid_after(old(self).last_pid());
                &&& r.0 == QoSWithPacketIdentifier::Level1(pid)
                &&& r.1 == old(self).outstanding().contains_key(pid)
                &&& final(self).last_pid() == pid
                &&& final(self).outstanding() == old(self).outstanding().insert(pid, response->0)
            }),
    {
        match qos {
            QualityOfService::Level0 => (QoSWithPacketIdentifier::Level0, false),
            _ => {
                let response = match response {
                    Some(r) => r,
                    None => {
                        assert(false);
                        return (QoSWithPacketIdentifier::Level0, false);
                    },
                };
                let pid = self.next_pid();
                let existing = self.outstanding.insert(pid, response);
                (QoSWithPacketIdentifier::Level1(pid), existing.is_some())
            },
        }
    }

    /// Takes the request that waited for the acknowledgement of `pid`.
    pub fn acknowledge(&mut self, pid: u16) -> (r: Option<R>)
        ensures
            final(self).outstanding() == old(self).outstanding().remove(pid),
            final(self).last_pid() == old(self).last_pid(),
            match r {
                Some(v) => old(self).outstanding().contains_key(pid) && v == old(self).outstanding()[pid],
                None => !old(self).outstanding().contains_key(pid),
            },
    {
        self.outstanding.remove(&pid)
    }

    /// What the reading side does with a packet from the broker.
    pub fn on_packet(&mut self, packet: Incoming) -> (r: ReadAction<R>)
        ensures
            final(self).last_pid() == old(self).last_pid(),
            match packet {
                Incoming::Pingresp => r is NotifyTimer && final(self).outstanding() == old(
                    self,
                ).outstanding(),
                Incoming::Publish => r is Enqueue && final(self).outstanding() == old(
                    self,
                ).outstanding(),
                Incoming::Puback(pid) | Incoming::Suback(pid) => {
                    &&& final(self).outstanding() == old(self).outstanding().remove(pid)
                    &&& if old(self).outstanding().contains_key(pid) {
                        r == ReadAction::Respond(old(self).outstanding()[pid])
                    } else {
                        r == ReadAction::<R>::UnknownPacketIdentifier(pid)
                    }
                },
                Incoming::Other => r is Ignore && final(self).outstanding() == old(
                    self,
                ).outstanding(),
            },
    {
        match packet {
            Incoming::Pingresp => ReadAction::NotifyTimer,
            Incoming::Publish => ReadAction::Enqueue,
            Incoming::Puback(pid) | Incoming::Suback(pid) => match self.acknowledge(pid) {
                Some(channel) => ReadAction::Respond(channel),
                None => ReadAction::UnknownPacketIdentifier(pid),
            },
            Incoming::Other => ReadAction::Ignore,
        }
    }
}

/// A request acknowledged right after it was registered is the request
/// answered, and no request is left waiting for its identifier.
pub proof fn law_acknowledge_answers_registered<R>(m: Map<u16, R>, pid: u16, response: R)
    ensures
        m.insert(pid, response).contains_key(pid),
        m.insert(pid, response)[pid] == response,
        !m.insert(pid, response).remove(pid).contains_key(pid),
{
}

/// Packet identifiers run through every value before one comes back:
/// starting from `pid`, the `n`-th next identifier is `(pid + n) mod 65536`.
pub open spec fn nth_pid(pid: u16, n: nat) -> u16
    decreases n,
{
    if n == 0 {
        pid
    } else {
        pid_after(nth_pid(pid, (n - 1) as nat))
    }
}

/// The `n`-th identifier after `pid` is `(pid + n) mod 65536`, so no two of
/// 65536 consecutive identifiers are equal.
pub proof fn law_pids_wrap(pid: u16, n: nat)
    ensures
        nth_pid(pid, n) == (pid + n) % 65536,
    decreases n,
{
    if n > 0 {
        law_pids_wrap(pid, (n - 1) as nat);
        assert((pid + n) % 65536 == if (pid + (n - 1)) % 65536 == 65535 {
            0
        } else {
            (pid + (n - 1)) % 65536 + 1
        }) by (nonlinear_arith);
    }
}

} // verus!
