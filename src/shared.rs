//! Per-connection packet-id bookkeeping: outbound QoS1/QoS2 publishes
//! awaiting acknowledgement, and inbound QoS2 publishes awaiting release.
use vstd::prelude::*;
use crate::error::ProtocolError;

verus! {

/// MQTT delivery guarantee.
#[derive(PartialEq, Eq, Structural, Clone, Copy, Debug)]
pub enum QoS {
    AtMostOnce,
    AtLeastOnce,
    ExactlyOnce,
}

/// What an outbound publish waits for.
#[derive(PartialEq, Eq, Structural, Clone, Copy, Debug)]
pub enum AckState {
    /// QoS1: PUBACK.
    WaitAck,
    /// QoS2, first phase: PUBREC.
    WaitRec,
    /// QoS2, second phase: PUBCOMP.
    WaitComp,
}

/// An outbound publish in flight.
#[derive(PartialEq, Eq, Structural, Clone, Copy, Debug)]
pub struct Outbound {
    pub id: u16,
    pub state: AckState,
}

/// An inbound QoS2 publish answered with PUBREC, awaiting PUBREL.
#[derive(PartialEq, Eq, Structural, Clone, Copy, Debug)]
pub struct Awaiting {
    pub id: u16,
    /// When the publish arrived, in milliseconds.
    pub since: u64,
}

/// Why an outbound publish could not be sent or completed.
#[derive(PartialEq, Eq, Structural, Clone, Copy, Debug)]
pub enum SendError {
    /// The connection is closed.
    Disconnected,
    /// Every non-zero packet id is in use.
    PacketIdsExhausted,
}

/// How to treat an inbound QoS2 publish.
#[derive(PartialEq, Eq, Structural, Clone, Copy, Debug)]
pub enum Inbound {
    /// First receipt: deliver it to the publish service, then answer PUBREC.
    Deliver,
    /// Its id already awaits release: do not deliver again, answer PUBREC.
    Duplicate,
}

pub open spec fn out_ids(s: Seq<Outbound>) -> Seq<u16> {
    s.map_values(|e: Outbound| e.id)
}

pub open spec fn awaiting_ids(s: Seq<Awaiting>) -> Seq<u16> {
    s.map_values(|e: Awaiting| e.id)
}

/// Position of packet id `id` in the search that starts after `cursor`
/// and wraps from 65535 round to 1.
pub open spec fn probe_order(cursor: u16, id: u16) -> int {
    if id > cursor {
        id - cursor
    } else {
        id + 65535 - cursor
    }
}

pub open spec fn distinct(s: Seq<u16>) -> bool {
    forall|i: int, j: int| 0 <= i < s.len() && 0 <= j < s.len() && i != j ==> s[i] != s[j]
}

/// `new` is `old` with the outbound publish `id`, which waited in `from`,
/// taken out of flight.
pub open spec fn completes(old: MqttShared, new: MqttShared, id: u16, from: AckState) -> bool {
    exists|i: int|
        0 <= i < old.outbound@.len() && old.outbound@[i].id == id && old.outbound@[i].state == from
            && new.outbound@ == old.outbound@.remove(i)
}

/// `new` is `old` with the QoS2 publish `id`, which waited for PUBREC,
/// moved on to wait for PUBCOMP.
pub open spec fn receives(old: MqttShared, new: MqttShared, id: u16) -> bool {
    exists|i: int|
        0 <= i < old.outbound@.len() && old.outbound@[i].id == id && old.outbound@[i].state
            == AckState::WaitRec && new.outbound@ == old.outbound@.update(
            i,
            Outbound { id, state: AckState::WaitComp },
        )
}

/// State shared by a connection's dispatcher and its sinks.
pub struct MqttShared {
    /// Outbound publishes awaiting acknowledgement.
    pub outbound: Vec<Outbound>,
    /// Inbound QoS2 publishes awaiting release, oldest first.
    pub awaiting: Vec<Awaiting>,
    /// Bound on the outbound publishes in flight.
    pub inflight: usize,
    /// Bound on the inbound publishes awaiting release; 0 is unlimited.
    pub max_awaiting_rel: usize,
    /// The packet id allocated last.
    pub cursor: u16,
    /// Whether the connection is closed to new publishes.
    pub closed: bool,
}

impl MqttShared {
    pub open spec fn in_outbound(&self, id: u16) -> bool {
        exists|i: int| 0 <= i < self.outbound@.len() && self.outbound@[i].id == id
    }

    pub open spec fn in_awaiting(&self, id: u16) -> bool {
        exists|i: int| 0 <= i < self.awaiting@.len() && self.awaiting@[i].id == id
    }

    /// An id is in use while an outbound publish or an inbound release
    /// holds it.
    pub open spec fn in_use(&self, id: u16) -> bool {
        self.in_outbound(id) || self.in_awaiting(id)
    }

    /// Everything but the outbound publishes is the same in `self` and `o`.
    pub open spec fn same_but_outbound(&self, o: &Self) -> bool {
        &&& self.awaiting == o.awaiting
        &&& self.inflight == o.inflight
        &&& self.max_awaiting_rel == o.max_awaiting_rel
        &&& self.cursor == o.cursor
        &&& self.closed == o.closed
    }

    /// Everything but the inbound releases is the same in `self` and `o`.
    pub open spec fn same_but_awaiting(&self, o: &Self) -> bool {
        &&& self.outbound == o.outbound
        &&& self.inflight == o.inflight
        &&& self.max_awaiting_rel == o.max_awaiting_rel
        &&& self.cursor == o.cursor
        &&& self.closed == o.closed
    }

    /// A packet id that may be handed out: non-zero and in use by no one.
    pub open spec fn is_free(&self, id: u16) -> bool {
        id != 0 && !self.in_use(id)
    }

    pub open spec fn wf(&self) -> bool {
        &&& self.outbound@.len() <= self.inflight
        &&& distinct(out_ids(self.outbound@))
        &&& forall|i: int| 0 <= i < self.outbound@.len() ==> self.outbound@[i].id != 0
        &&& distinct(awaiting_ids(self.awaiting@))
        &&& (self.max_awaiting_rel > 0 ==> self.awaiting@.len() <= self.max_awaiting_rel)
    }

    /// Empty state, open, with the given bounds.
    pub fn new(inflight: usize, max_awaiting_rel: usize) -> (r: Self)
        ensures
            r.wf(),
            r.outbound@.len() == 0,
            r.awaiting@.len() == 0,
            r.inflight == inflight,
            r.max_awaiting_rel == max_awaiting_rel,
            r.cursor == 0,
            !r.closed,
    {
        MqttShared {
            outbound: Vec::new(),
            awaiting: Vec::new(),
            inflight,
            max_awaiting_rel,
            cursor: 0,
            closed: false,
        }
    }

    /// Whether `id` is in use.
    pub fn is_busy(&self, id: u16) -> (r: bool)
        ensures
            r == self.in_use(id),
    {
        let mut i: usize = 0;
        while i < self.outbound.len()
            invariant
                i <= self.outbound@.len(),
                forall|k: int| 0 <= k < i ==> self.outbound@[k].id != id,
            decreases self.outbound@.len() - i,
        {
            if self.outbound[i].id == id {
                return true;
            }
            i = i + 1;
        }
        let mut j: usize = 0;
        while j < self.awaiting.len()
            invariant
                j <= self.awaiting@.len(),
                !self.in_outbound(id),
                forall|k: int| 0 <= k < j ==> self.awaiting@[k].id != id,
            decreases self.awaiting@.len() - j,
        {
            if self.awaiting[j].id == id {
                return true;
            }
            j = j + 1;
        }
        false
    }

    /// Position of the outbound publish with packet id `id`, if any.
    fn find_outbound(&self, id: u16) -> (r: Option<usize>)
        ensures
            r matches Some(i) ==> i < self.outbound@.len() && self.outbound@[i as int].id == id,
            r is None ==> !self.in_outbound(id),
    {
        let mut i: usize = 0;
        while i < self.outbound.len()
            invariant
                i <= self.outbound@.len(),
                forall|k: int| 0 <= k < i ==> self.outbound@[k].id != id,
            decreases self.outbound@.len() - i,
        {
            if self.outbound[i].id == id {
                return Some(i);
            }
            i = i + 1;
        }
        None
    }

    /// Position of the inbound release with packet id `id`, if any.
    fn find_awaiting(&self, id: u16) -> (r: Option<usize>)
        ensures
            r matches Some(i) ==> i < self.awaiting@.len() && self.awaiting@[i as int].id == id,
            r is None ==> !self.in_awaiting(id),
    {
        let mut i: usize = 0;
        while i < self.awaiting.len()
            invariant
                i <= self.awaiting@.len(),
                forall|k: int| 0 <= k < i ==> self.awaiting@[k].id != id,
            decreases self.awaiting@.len() - i,
        {
            if self.awaiting[i].id == id {
                return Some(i);
            }
            i = i + 1;
        }
        None
    }

    /// Whether another outbound publish may be put in flight.
    pub fn has_capacity(&self) -> (r: bool)
        ensures
            r == (self.outbound@.len() < self.inflight),
    {
        self.outbound.len() < self.inflight
    }

    /// Allocate a packet id for an outbound QoS1 or QoS2 publish and put
    /// it in flight, waiting for PUBACK or PUBREC.
    pub fn register(&mut self, qos: QoS) -> (r: Result<u16, SendError>)
        requires
            old(self).wf(),
            qos != QoS::AtMostOnce,
            old(self).outbound@.len() < old(self).inflight,
        ensures
            final(self).wf(),
            old(self).closed ==> r == Err::<u16, SendError>(SendError::Disconnected),
            !old(self).closed && (exists|id: u16| id != 0 && !old(self).in_use(id)) ==> r is Ok,
            r matches Ok(id) ==> {
                &&& old(self).is_free(id)
                &&& id != 0
                &&& !old(self).in_use(id)
                &&& forall|x: u16|
                    x != 0 && probe_order(old(self).cursor, x) < probe_order(old(self).cursor, id)
                        ==> #[trigger] old(self).in_use(x)
                &&& final(self).outbound@ == old(self).outbound@.push(
                    Outbound {
                        id,
                        state: if qos == QoS::AtLeastOnce {
                            AckState::WaitAck
                        } else {
                            AckState::WaitRec
                        },
                    },
                )
                &&& final(self).cursor == id
                &&& final(self).awaiting == old(self).awaiting
                &&& final(self).closed == old(self).closed
                &&& final(self).inflight == old(self).inflight
                &&& final(self).max_awaiting_rel == old(self).max_awaiting_rel
            },
            r is Err ==> *final(self) == *old(self),
            r == Err::<u16, SendError>(SendError::PacketIdsExhausted) ==> forall|id: u16|
                id != 0 ==> #[trigger] old(self).in_use(id),
            !old(self).closed && (forall|id: u16| id != 0 ==> #[trigger] old(self).in_use(id)) ==> r
                == Err::<u16, SendError>(SendError::PacketIdsExhausted),
    {
        if self.closed {
            return Err(SendError::Disconnected);
        }
        match self.find_free_id() {
            Some(id) => {
                let state = if qos == QoS::AtLeastOnce {
                    AckState::WaitAck
                } else {
                    AckState::WaitRec
                };
                let ghost before = self.outbound@;
                self.outbound.push(Outbound { id, state });
                self.cursor = id;
                proof {
                    assert(out_ids(self.outbound@) =~= out_ids(before).push(id));
                    assert forall|k: int| 0 <= k < before.len() implies before[k].id != id by {
                        if before[k].id == id {
                            assert(old(self).in_outbound(id));
                        }
                    }
                }
                Ok(id)
            },
            None => Err(SendError::PacketIdsExhausted),
        }
    }

    /// Advance the outbound publish `id` from `from`: to `to`, or out of
    /// flight when `to` is `None`. Returns whether it was waiting in `from`.
    fn advance(&mut self, id: u16, from: AckState, to: Option<AckState>) -> (ok: bool)
        requires
            old(self).wf(),
        ensures
            final(self).wf(),
            ok == exists|i: int|
                0 <= i < old(self).outbound@.len() && old(self).outbound@[i].id == id
                    && old(self).outbound@[i].state == from,
            ok ==> exists|i: int|
                0 <= i < old(self).outbound@.len() && old(self).outbound@[i].id == id
                    && old(self).outbound@[i].state == from && final(self).outbound@ == match to {
                    Some(st) => old(self).outbound@.update(i, Outbound { id, state: st }),
                    None => old(self).outbound@.remove(i),
                },
            !ok ==> *final(self) == *old(self),
            ok && to is None ==> !final(self).in_outbound(id),
            final(self).awaiting == old(self).awaiting,
            final(self).cursor == old(self).cursor,
            final(self).closed == old(self).closed,
            final(self).inflight == old(self).inflight,
            final(self).max_awaiting_rel == old(self).max_awaiting_rel,
    {
        match self.find_outbound(id) {
            Some(i) => {
                if self.outbound[i].state != from {
                    proof {
                        assert forall|j: int|
                            0 <= j < old(self).outbound@.len() && old(self).outbound@[j].id
                                == id implies old(self).outbound@[j].state != from by {
                            if j != i {
                                assert(out_ids(old(self).outbound@)[j] == out_ids(
                                    old(self).outbound@,
                                )[i as int]);
                            }
                        }
                    }
                    return false;
                }
                let ghost before = self.outbound@;
                match to {
                    Some(st) => {
                        self.outbound.set(i, Outbound { id, state: st });
                        proof {
                            assert(out_ids(self.outbound@) =~= out_ids(before));
                            assert forall|k: int| 0 <= k < self.outbound@.len() implies self.outbound@[k].id
                                == before[k].id by {
                                assert(out_ids(self.outbound@)[k] == out_ids(before)[k]);
                            }
                        }
                    },
                    None => {
                        self.outbound.remove(i);
                        proof {
                            assert(out_ids(self.outbound@) =~= out_ids(before).remove(i as int));
                            assert forall|k: int| 0 <= k < self.outbound@.len() implies self.outbound@[k].id
                                != 0 by {
                                if k < i {
                                    assert(self.outbound@[k] == before[k]);
                                } else {
                                    assert(self.outbound@[k] == before[k + 1]);
                                }
                            }
                            assert forall|k: int| 0 <= k < self.outbound@.len() implies self.outbound@[k].id
                                != id by {
                                if k < i {
                                    assert(self.outbound@[k] == before[k]);
                                    assert(out_ids(before)[k] != out_ids(before)[i as int]);
                                } else {
                                    assert(self.outbound@[k] == before[k + 1]);
                                    assert(out_ids(before)[k + 1] != out_ids(before)[i as int]);
                                }
                            }
                        }
                    },
                }
                true
            },
            None => false,
        }
    }

    /// PUBACK for `id`: completes a QoS1 publish. Succeeds exactly when
    /// `id` waits for PUBACK, and then takes it out of flight.
    pub fn on_puback<E>(&mut self, id: u16) -> (r: Result<(), ProtocolError<E>>)
        requires
            old(self).wf(),
        ensures
            final(self).wf(),
            r is Ok == exists|i: int|
                0 <= i < old(self).outbound@.len() && old(self).outbound@[i].id == id
                    && old(self).outbound@[i].state == AckState::WaitAck,
            r is Ok ==> completes(*old(self), *final(self), id, AckState::WaitAck),
            r is Err ==> r == Err::<(), ProtocolError<E>>(ProtocolError::PacketIdMismatch)
                && *final(self) == *old(self),
            r is Ok ==> !final(self).in_outbound(id),
            final(self).same_but_outbound(old(self)),
            final(self).awaiting == old(self).awaiting,
            final(self).closed == old(self).closed,
    {
        if self.advance(id, AckState::WaitAck, None) {
            Ok(())
        } else {
            Err(ProtocolError::PacketIdMismatch)
        }
    }

    /// PUBREC for `id`: a QoS2 publish moves on to wait for PUBCOMP.
    /// Succeeds exactly when `id` waits for PUBREC; the caller then sends
    /// PUBREL.
    pub fn on_pubrec<E>(&mut self, id: u16) -> (r: Result<(), ProtocolError<E>>)
        requires
            old(self).wf(),
        ensures
            final(self).wf(),
            r is Ok == exists|i: int|
                0 <= i < old(self).outbound@.len() && old(self).outbound@[i].id == id
                    && old(self).outbound@[i].state == AckState::WaitRec,
            r is Ok ==> receives(*old(self), *final(self), id),
            r is Err ==> r == Err::<(), ProtocolError<E>>(ProtocolError::PacketIdMismatch)
                && *final(self) == *old(self),
            final(self).same_but_outbound(old(self)),
            final(self).awaiting == old(self).awaiting,
            final(self).closed == old(self).closed,
    {
        if self.advance(id, AckState::WaitRec, Some(AckState::WaitComp)) {
            Ok(())
        } else {
            Err(ProtocolError::PacketIdMismatch)
        }
    }

    /// PUBCOMP for `id`: completes a QoS2 publish. Succeeds exactly when
    /// `id` waits for PUBCOMP, and then takes it out of flight.
    pub fn on_pubcomp<E>(&mut self, id: u16) -> (r: Result<(), ProtocolError<E>>)
        requires
            old(self).wf(),
        ensures
            final(self).wf(),
            r is Ok == exists|i: int|
                0 <= i < old(self).outbound@.len() && old(self).outbound@[i].id == id
                    && old(self).outbound@[i].state == AckState::WaitComp,
            r is Ok ==> completes(*old(self), *final(self), id, AckState::WaitComp),
            r is Err ==> r == Err::<(), ProtocolError<E>>(ProtocolError::PacketIdMismatch)
                && *final(self) == *old(self),
            r is Ok ==> !final(self).in_outbound(id),
            final(self).same_but_outbound(old(self)),
            final(self).awaiting == old(self).awaiting,
            final(self).closed == old(self).closed,
    {
        if self.advance(id, AckState::WaitComp, None) {
            Ok(())
        } else {
            Err(ProtocolError::PacketIdMismatch)
        }
    }

    /// Close the connection to new publishes; those in flight stay, to
    /// complete on their acknowledgements.
    pub fn close(&mut self)
        requires
            old(self).wf(),
        ensures
            final(self).wf(),
            final(self).closed,
            final(self).outbound == old(self).outbound,
            final(self).awaiting == old(self).awaiting,
            final(self).cursor == old(self).cursor,
            final(self).inflight == old(self).inflight,
            final(self).max_awaiting_rel == old(self).max_awaiting_rel,
    {
        self.closed = true;
    }

    /// A QoS0 publish is queued at once unless the connection is closed.
    pub fn send_at_most_once(&self) -> (r: Result<(), SendError>)
        ensures
            self.closed ==> r == Err::<(), SendError>(SendError::Disconnected),
            !self.closed ==> r is Ok,
    {
        if self.closed {
            Err(SendError::Disconnected)
        } else {
            Ok(())
        }
    }

    /// Close the connection to new publishes and fail every one in flight:
    /// returns their packet ids, in order, for the waiters to be told
    /// `Disconnected`.
    pub fn force_close(&mut self) -> (failed: Vec<u16>)
        requires
            old(self).wf(),
        ensures
            final(self).wf(),
            failed@ == out_ids(old(self).outbound@),
            final(self).outbound@.len() == 0,
            final(self).closed,
            final(self).awaiting == old(self).awaiting,
            final(self).cursor == old(self).cursor,
            final(self).inflight == old(self).inflight,
            final(self).max_awaiting_rel == old(self).max_awaiting_rel,
    {
        let mut failed: Vec<u16> = Vec::new();
        let mut i: usize = 0;
        while i < self.outbound.len()
            invariant
                *self == *old(self),
                i <= self.outbound@.len(),
                failed@ == out_ids(self.outbound@).take(i as int),
            decreases self.outbound@.len() - i,
        {
            failed.push(self.outbound[i].id);
            i = i + 1;
            proof {
                assert(failed@ =~= out_ids(self.outbound@).take(i as int));
            }
        }
        proof {
            assert(out_ids(self.outbound@).take(i as int) =~= out_ids(self.outbound@));
        }
        self.outbound = Vec::new();
        self.closed = true;
        failed
    }

    /// An inbound QoS2 PUBLISH with packet id `id` arrives at `now`. A
    /// first receipt is recorded as awaiting release and delivered; a
    /// repeat is not delivered again; over `max_awaiting_rel` it is refused.
    pub fn on_publish_qos2<E>(&mut self, id: u16, now: u64) -> (r: Result<Inbound, ProtocolError<E>>)
        requires
            old(self).wf(),
        ensures
            final(self).wf(),
            old(self).in_awaiting(id) ==> r == Ok::<Inbound, ProtocolError<E>>(Inbound::Duplicate)
                && *final(self) == *old(self),
            !old(self).in_awaiting(id) && old(self).max_awaiting_rel > 0
                && old(self).awaiting@.len() >= old(self).max_awaiting_rel ==> r == Err::<
                Inbound,
                ProtocolError<E>,
            >(ProtocolError::ReceiveMaxExceeded) && *final(self) == *old(self),
            !old(self).in_awaiting(id) && !(old(self).max_awaiting_rel > 0
                && old(self).awaiting@.len() >= old(self).max_awaiting_rel) ==> r == Ok::<
                Inbound,
                ProtocolError<E>,
            >(Inbound::Deliver) && final(self).awaiting@ == old(self).awaiting@.push(
                Awaiting { id, since: now },
            ) && final(self).outbound == old(self).outbound && final(self).cursor == old(
                self,
            ).cursor && final(self).closed == old(self).closed && final(self).inflight == old(
                self,
            ).inflight && final(self).max_awaiting_rel == old(self).max_awaiting_rel,
    {
        match self.find_awaiting(id) {
            Some(_) => Ok(Inbound::Duplicate),
            None => {
                if self.max_awaiting_rel > 0 && self.awaiting.len() >= self.max_awaiting_rel {
                    Err(ProtocolError::ReceiveMaxExceeded)
                } else {
                    let ghost before = self.awaiting@;
                    self.awaiting.push(Awaiting { id, since: now });
                    proof {
                        assert(awaiting_ids(self.awaiting@) =~= awaiting_ids(before).push(id));
                        assert forall|k: int| 0 <= k < before.len() implies before[k].id != id by {
                            if before[k].id == id {
                                assert(old(self).in_awaiting(id));
                            }
                        }
                    }
                    Ok(Inbound::Deliver)
                }
            },
        }
    }

    /// PUBREL for `id`: the inbound publish is released. Returns whether it
    /// was awaiting release; the answer is PUBCOMP either way.
    pub fn on_pubrel(&mut self, id: u16) -> (found: bool)
        requires
            old(self).wf(),
        ensures
            final(self).wf(),
            found == old(self).in_awaiting(id),
            found ==> exists|i: int|
                0 <= i < old(self).awaiting@.len() && old(self).awaiting@[i].id == id
                    && final(self).awaiting@ == old(self).awaiting@.remove(i),
            !found ==> *final(self) == *old(self),
            !final(self).in_awaiting(id),
            final(self).same_but_awaiting(old(self)),
            final(self).outbound == old(self).outbound,
            final(self).cursor == old(self).cursor,
            final(self).closed == old(self).closed,
            final(self).inflight == old(self).inflight,
            final(self).max_awaiting_rel == old(self).max_awaiting_rel,
    {
        match self.find_awaiting(id) {
            Some(i) => {
                let ghost before = self.awaiting@;
                self.awaiting.remove(i);
                proof {
                    assert(awaiting_ids(self.awaiting@) =~= awaiting_ids(before).remove(i as int));
                    assert forall|k: int| 0 <= k < self.awaiting@.len() implies self.awaiting@[k].id
                        != id by {
                        if k < i {
                            assert(self.awaiting@[k] == before[k]);
                            assert(awaiting_ids(before)[k] != awaiting_ids(before)[i as int]);
                        } else {
                            assert(self.awaiting@[k] == before[k + 1]);
                            assert(awaiting_ids(before)[k + 1] != awaiting_ids(before)[i as int]);
                        }
                    }
                }
                true
            },
            None => false,
        }
    }

    /// Whether an inbound release that arrived at `since` is older than
    /// `timeout` milliseconds at `now`; a timeout of 0 never expires.
    pub open spec fn expired(a: Awaiting, now: u64, timeout: u64) -> bool {
        timeout > 0 && now >= a.since && now - a.since > timeout
    }

    pub open spec fn expired_at(now: u64, timeout: u64) -> spec_fn(Awaiting) -> bool {
        |a: Awaiting| Self::expired(a, now, timeout)
    }

    pub open spec fn live_at(now: u64, timeout: u64) -> spec_fn(Awaiting) -> bool {
        |a: Awaiting| !Self::expired(a, now, timeout)
    }

    /// Drop the inbound releases older than `timeout` milliseconds at
    /// `now`, keeping the others in order; returns the dropped packet ids,
    /// each of which the caller reports as a protocol error.
    pub fn reap(&mut self, now: u64, timeout: u64) -> (dropped: Vec<u16>)
        requires
            old(self).wf(),
        ensures
            final(self).wf(),
            final(self).awaiting@ == old(self).awaiting@.filter(Self::live_at(now, timeout)),
            dropped@ == awaiting_ids(old(self).awaiting@.filter(Self::expired_at(now, timeout))),
            final(self).outbound == old(self).outbound,
            final(self).cursor == old(self).cursor,
            final(self).closed == old(self).closed,
            final(self).inflight == old(self).inflight,
            final(self).max_awaiting_rel == old(self).max_awaiting_rel,
    {
        let ghost s0 = self.awaiting@;
        let mut kept: Vec<Awaiting> = Vec::new();
        let mut dropped: Vec<u16> = Vec::new();
        let mut i: usize = 0;
        proof {
            reveal(Seq::filter);
            assert(s0.take(0) =~= Seq::<Awaiting>::empty());
        }
        while i < self.awaiting.len()
            invariant
                *self == *old(self),
                s0 == self.awaiting@,
                i <= s0.len(),
                kept@ == s0.take(i as int).filter(Self::live_at(now, timeout)),
                dropped@ == awaiting_ids(s0.take(i as int).filter(Self::expired_at(now, timeout))),
                kept@.len() <= i,
                forall|k: int|
                    0 <= k < kept@.len() ==> exists|j: int| 0 <= j < i && #[trigger] kept@[k] == s0[j],
                distinct(awaiting_ids(kept@)),
                distinct(awaiting_ids(s0)),
            decreases s0.len() - i,
        {
            let a = self.awaiting[i];
            let expired = timeout > 0 && now >= a.since && now - a.since > timeout;
            proof {
                reveal(Seq::filter);
                assert(s0.take(i + 1).drop_last() =~= s0.take(i as int));
                assert(s0.take(i + 1).last() == a);
                assert(Self::expired(a, now, timeout) == expired);
                assert(Self::expired_at(now, timeout)(a) == expired);
                assert(Self::live_at(now, timeout)(a) == !expired);
                assert(s0.take(i + 1).len() > 0);
            }
            if expired {
                dropped.push(a.id);
                proof {
                    assert(s0.take(i + 1).filter(Self::expired_at(now, timeout)) == s0.take(i as int).filter(Self::expired_at(now, timeout)).push(a));
                    assert(s0.take(i + 1).filter(Self::live_at(now, timeout)) == s0.take(i as int).filter(Self::live_at(now, timeout)));
                    assert(dropped@ =~= awaiting_ids(s0.take(i + 1).filter(Self::expired_at(now, timeout))));
                }
            } else {
                let ghost kb = kept@;
                kept.push(a);
                proof {
                    assert(s0.take(i + 1).filter(Self::live_at(now, timeout)) == s0.take(i as int).filter(Self::live_at(now, timeout)).push(a));
                    assert(s0.take(i + 1).filter(Self::expired_at(now, timeout)) == s0.take(i as int).filter(Self::expired_at(now, timeout)));
                    assert(kept@ =~= s0.take(i + 1).filter(Self::live_at(now, timeout)));
                    assert(awaiting_ids(kept@) =~= awaiting_ids(kb).push(a.id));
                    assert forall|k: int| 0 <= k < kb.len() implies kb[k].id != a.id by {
                        let j = choose|j: int| 0 <= j < i && kb[k] == s0[j];
                        assert(awaiting_ids(s0)[j] != awaiting_ids(s0)[i as int]);
                    }
                    assert forall|k: int| 0 <= k < kept@.len() implies exists|j: int|
                        0 <= j < i + 1 && #[trigger] kept@[k] == s0[j] by {
                        if k < kb.len() {
                            let j = choose|j: int| 0 <= j < i && kb[k] == s0[j];
                            assert(kept@[k] == s0[j]);
                        } else {
                            assert(kept@[k] == s0[i as int]);
                        }
                    }
                }
            }
            i = i + 1;
        }
        proof {
            assert(s0.take(i as int) =~= s0);
        }
        self.awaiting = kept;
        dropped
    }

    /// The next free packet id after the cursor, wrapping round and
    /// skipping 0, or `None` when every non-zero id is in use.
    pub fn find_free_id(&self) -> (r: Option<u16>)
        ensures
            r matches Some(id) ==> id != 0 && !self.in_use(id) && forall|x: u16|
                x != 0 && probe_order(self.cursor, x) < probe_order(self.cursor, id)
                    ==> #[trigger] self.in_use(x),
            r is None ==> forall|id: u16| id != 0 ==> #[trigger] self.in_use(id),
    {
        let mut c: u16 = self.cursor;
        while c < u16::MAX
            invariant
                self.cursor <= c,
                forall|id: u16| self.cursor < id <= c ==> #[trigger] self.in_use(id),
            decreases u16::MAX - c,
        {
            c = c + 1;
            if !self.is_busy(c) {
                return Some(c);
            }
        }
        let mut d: u32 = 1;
        while d <= self.cursor as u32
            invariant
                1 <= d,
                d <= self.cursor + 1,
                forall|id: u16| self.cursor < id ==> #[trigger] self.in_use(id),
                forall|id: u16| 1 <= id < d ==> #[trigger] self.in_use(id),
            decreases self.cursor + 1 - d,
        {
            if !self.is_busy(d as u16) {
                return Some(d as u16);
            }
            d = d + 1;
        }
        None
    }
}

/// While a packet id is held by an outbound publish or an inbound release
/// it is held once: the outbound ids are distinct and non-zero, and so are
/// the ids awaiting release. `register` hands out only ids in use by
/// neither.
pub proof fn lemma_packet_ids_unique(s: MqttShared)
    requires
        s.wf(),
    ensures
        forall|i: int, j: int|
            0 <= i < s.outbound@.len() && 0 <= j < s.outbound@.len() && i != j
                ==> s.outbound@[i].id != s.outbound@[j].id,
        forall|i: int, j: int|
            0 <= i < s.awaiting@.len() && 0 <= j < s.awaiting@.len() && i != j
                ==> s.awaiting@[i].id != s.awaiting@[j].id,
        forall|i: int| 0 <= i < s.outbound@.len() ==> s.outbound@[i].id != 0,
{
    assert forall|i: int, j: int|
        0 <= i < s.outbound@.len() && 0 <= j < s.outbound@.len() && i != j implies s.outbound@[i].id
        != s.outbound@[j].id by {
        assert(out_ids(s.outbound@)[i] != out_ids(s.outbound@)[j]);
    }
    assert forall|i: int, j: int|
        0 <= i < s.awaiting@.len() && 0 <= j < s.awaiting@.len() && i != j implies s.awaiting@[i].id
        != s.awaiting@[j].id by {
        assert(awaiting_ids(s.awaiting@)[i] != awaiting_ids(s.awaiting@)[j]);
    }
}

/// A packet id in use is never handed out again while it stays in use, and
/// putting a free id in flight keeps every id held once.
pub proof fn lemma_packet_id_not_reused(s: MqttShared, id: u16, st: AckState)
    requires
        s.wf(),
    ensures
        s.in_use(id) ==> !s.is_free(id),
        s.is_free(id) ==> distinct(out_ids(s.outbound@.push(Outbound { id, state: st }))),
        s.is_free(id) ==> forall|j: int| 0 <= j < s.awaiting@.len() ==> s.awaiting@[j].id != id,
{
    if s.is_free(id) {
        let v = s.outbound@.push(Outbound { id, state: st });
        assert(out_ids(v) =~= out_ids(s.outbound@).push(id));
        assert forall|k: int| 0 <= k < s.outbound@.len() implies s.outbound@[k].id != id by {
            if s.outbound@[k].id == id {
                assert(s.in_outbound(id));
            }
        }
        assert forall|j: int| 0 <= j < s.awaiting@.len() implies s.awaiting@[j].id != id by {
            if s.awaiting@[j].id == id {
                assert(s.in_awaiting(id));
            }
        }
    }
}

/// An outbound publish leaves flight only on the acknowledgement it waits
/// for, with its own packet id: a QoS1 publish on PUBACK, a QoS2 publish on
/// PUBCOMP (which it waits for only after PUBREC). Afterwards its id is
/// free of it, and every other publish in flight is still there.
pub proof fn lemma_ack_pairing(old: MqttShared, new: MqttShared, id: u16, from: AckState)
    requires
        old.wf(),
        completes(old, new, id, from),
    ensures
        exists|i: int|
            0 <= i < old.outbound@.len() && old.outbound@[i].id == id && old.outbound@[i].state
                == from,
        !new.in_outbound(id),
        forall|k: int|
            0 <= k < old.outbound@.len() && old.outbound@[k].id != id ==> new.outbound@.contains(
                old.outbound@[k],
            ),
{
    let i = choose|i: int|
        0 <= i < old.outbound@.len() && old.outbound@[i].id == id && old.outbound@[i].state == from
            && new.outbound@ == old.outbound@.remove(i);
    assert forall|k: int| 0 <= k < new.outbound@.len() implies new.outbound@[k].id != id by {
        if k < i {
            assert(new.outbound@[k] == old.outbound@[k]);
            assert(out_ids(old.outbound@)[k] != out_ids(old.outbound@)[i]);
        } else {
            assert(new.outbound@[k] == old.outbound@[k + 1]);
            assert(out_ids(old.outbound@)[k + 1] != out_ids(old.outbound@)[i]);
        }
    }
    assert forall|k: int|
        0 <= k < old.outbound@.len() && old.outbound@[k].id != id implies new.outbound@.contains(
        old.outbound@[k],
    ) by {
        if k < i {
            assert(new.outbound@[k] == old.outbound@[k]);
        } else {
            assert(k != i);
            assert(new.outbound@[k - 1] == old.outbound@[k]);
        }
    }
}

/// An exactly-once publish completes only through its whole chain: it
/// waited for PUBREC, PUBREC moved it on (the caller then sends PUBREL),
/// and PUBCOMP with the same id took it out of flight. After PUBREC it is
/// waiting for PUBCOMP and for nothing else.
pub proof fn lemma_qos2_chain(s0: MqttShared, s1: MqttShared, s2: MqttShared, id: u16)
    requires
        s0.wf(),
        s1.wf(),
        receives(s0, s1, id),
        completes(s1, s2, id, AckState::WaitComp),
    ensures
        exists|i: int|
            0 <= i < s0.outbound@.len() && s0.outbound@[i].id == id && s0.outbound@[i].state
                == AckState::WaitRec,
        exists|i: int|
            0 <= i < s1.outbound@.len() && s1.outbound@[i].id == id && s1.outbound@[i].state
                == AckState::WaitComp,
        forall|i: int|
            0 <= i < s1.outbound@.len() && s1.outbound@[i].id == id ==> s1.outbound@[i].state
                == AckState::WaitComp,
        !s2.in_outbound(id),
{
    let i = choose|i: int|
        0 <= i < s0.outbound@.len() && s0.outbound@[i].id == id && s0.outbound@[i].state
            == AckState::WaitRec && s1.outbound@ == s0.outbound@.update(
            i,
            Outbound { id, state: AckState::WaitComp },
        );
    assert(s1.outbound@[i].id == id);
    assert forall|k: int|
        0 <= k < s1.outbound@.len() && s1.outbound@[k].id == id implies s1.outbound@[k].state
        == AckState::WaitComp by {
        if k != i {
            assert(out_ids(s1.outbound@)[k] == out_ids(s1.outbound@)[i]);
        }
    }
    lemma_ack_pairing(s1, s2, id, AckState::WaitComp);
}

} // verus!
