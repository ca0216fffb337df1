//! Decision core of the framed dispatcher: head-of-line response ordering,
//! the in-flight bound, keep-alive, the drain deadline and write
//! back-pressure reporting. The I/O loop around it feeds it events and
//! performs the actions it returns.
use vstd::prelude::*;
use crate::error::MqttError;

verus! {

/// One request handed to the user service, in arrival order.
pub struct Slot<R> {
    /// Arrival number of the request.
    pub id: u64,
    /// `None` while the service future is pending; then the service's
    /// response, which is `None` when nothing is to be written.
    pub result: Option<Option<R>>,
}

/// Lifecycle of a connection.
#[derive(PartialEq, Eq, Structural, Clone, Copy, Debug)]
pub enum Phase {
    Running,
    ShuttingDown,
    Stopped,
}

/// What a clock tick asks the I/O loop to do.
#[derive(PartialEq, Eq, Structural, Clone, Copy, Debug)]
pub enum TickAction {
    /// Nothing is due.
    Idle,
    /// Deliver `KeepAliveTimeout` to the service; shutdown has begun.
    KeepAliveTimeout,
    /// Close the connection: the dispatcher has stopped.
    Stop,
}

/// A write back-pressure transition to report to the service.
#[derive(PartialEq, Eq, Structural, Clone, Copy, Debug)]
pub enum BackPressure {
    Unchanged,
    Enabled,
    Disabled,
}

pub open spec fn is_done<R>(s: Slot<R>) -> bool {
    s.result is Some
}

/// Number of completed slots at the head of the queue.
pub open spec fn ready_len<R>(s: Seq<Slot<R>>) -> nat
    decreases s.len(),
{
    if s.len() == 0 || !is_done(s[0]) {
        0
    } else {
        1 + ready_len(s.skip(1))
    }
}

/// The frames to write for a run of completed slots, in queue order.
pub open spec fn responses<R>(s: Seq<Slot<R>>) -> Seq<R>
    decreases s.len(),
{
    if s.len() == 0 {
        Seq::empty()
    } else {
        let rest = responses(s.drop_last());
        match s.last().result {
            Some(Some(r)) => rest.push(r),
            _ => rest,
        }
    }
}

/// The arrival numbers of the slots in `s` whose response is a frame.
pub open spec fn response_ids<R>(s: Seq<Slot<R>>) -> Seq<u64>
    decreases s.len(),
{
    if s.len() == 0 {
        Seq::empty()
    } else {
        let rest = response_ids(s.drop_last());
        match s.last().result {
            Some(Some(_)) => rest.push(s.last().id),
            _ => rest,
        }
    }
}

pub open spec fn increasing(s: Seq<u64>) -> bool {
    forall|i: int, j: int| 0 <= i < j < s.len() ==> s[i] < s[j]
}

/// Back-pressure reports alternate, starting with `Enabled`
/// (`true` stands for `Enabled`).
pub open spec fn alternating(log: Seq<bool>) -> bool {
    forall|i: int| 0 <= i < log.len() ==> log[i] == (i % 2 == 0)
}

/// The dispatcher's state for one connection. Times are in milliseconds.
pub struct Dispatcher<R> {
    /// Requests handed to the service whose responses are not yet written.
    pub slots: Vec<Slot<R>>,
    /// Arrival number of the next request.
    pub next_id: u64,
    /// Bound on the number of unresolved requests.
    pub inflight: usize,
    pub phase: Phase,
    /// Keep-alive interval in seconds; 0 disables it.
    pub keepalive: u16,
    /// When the last frame arrived.
    pub last_frame_at: u64,
    /// Whether `KeepAliveTimeout` has been delivered.
    pub keepalive_fired: bool,
    /// Whether an I/O, decode or encode error has been delivered.
    pub error_delivered: bool,
    /// Drain deadline in milliseconds; 0 disables it.
    pub disconnect_timeout: u16,
    /// When shutdown began.
    pub shutdown_at: u64,
    /// Whether write back-pressure is in force.
    pub back_pressure: bool,
    /// Write buffer size above which back-pressure is enabled.
    pub write_hw: usize,
    /// Write buffer size at or below which back-pressure is lifted.
    pub lw: usize,
    /// Arrival numbers of the requests whose responses were written, in
    /// the order they were written.
    pub written: Ghost<Seq<u64>>,
    /// Back-pressure reports made so far (`true` for `Enabled`).
    pub bp_log: Ghost<Seq<bool>>,
    /// For each frame handed to the service, in order, how many
    /// back-pressure reports preceded it.
    pub item_marks: Ghost<Seq<int>>,
}

impl<R> Dispatcher<R> {
    pub open spec fn slot_ids(&self) -> Seq<u64> {
        self.slots@.map_values(|s: Slot<R>| s.id)
    }

    pub open spec fn wf(&self) -> bool {
        &&& self.slots@.len() <= self.inflight
        &&& increasing(self.slot_ids())
        &&& forall|i: int| 0 <= i < self.slots@.len() ==> self.slots@[i].id < self.next_id
        &&& increasing(self.written@)
        &&& forall|i: int, j: int|
            0 <= i < self.written@.len() && 0 <= j < self.slots@.len() ==> self.written@[i]
                < self.slots@[j].id
        &&& forall|i: int| 0 <= i < self.written@.len() ==> self.written@[i] < self.next_id
        &&& alternating(self.bp_log@)
        &&& self.back_pressure == (self.bp_log@.len() % 2 == 1)
        &&& (self.keepalive_fired ==> self.phase != Phase::Running)
        &&& (self.error_delivered ==> self.phase != Phase::Running)
        &&& forall|i: int|
            0 <= i < self.item_marks@.len() ==> self.item_marks@[i] % 2 == 0 && 0
                <= self.item_marks@[i] <= self.bp_log@.len()
        &&& forall|i: int, j: int|
            0 <= i <= j < self.item_marks@.len() ==> self.item_marks@[i] <= self.item_marks@[j]
    }

    /// A fresh dispatcher, running, with nothing in flight.
    pub fn new(inflight: usize, keepalive: u16, disconnect_timeout: u16, write_hw: usize, lw: usize, now: u64) -> (r: Self)
        ensures
            r.wf(),
            r.slots@.len() == 0,
            r.phase == Phase::Running,
            r.next_id == 0,
            r.inflight == inflight,
            r.keepalive == keepalive,
            r.disconnect_timeout == disconnect_timeout,
            r.write_hw == write_hw,
            r.lw == lw,
            r.last_frame_at == now,
            !r.keepalive_fired,
            !r.error_delivered,
            !r.back_pressure,
            r.written@.len() == 0,
            r.bp_log@.len() == 0,
            r.item_marks@.len() == 0,
    {
        Dispatcher {
            slots: Vec::new(),
            next_id: 0,
            inflight,
            phase: Phase::Running,
            keepalive,
            last_frame_at: now,
            keepalive_fired: false,
            error_delivered: false,
            disconnect_timeout,
            shutdown_at: 0,
            back_pressure: false,
            write_hw,
            lw,
            written: Ghost(Seq::empty()),
            bp_log: Ghost(Seq::empty()),
            item_marks: Ghost(Seq::empty()),
        }
    }

    /// Record a frame handed to the service: its request takes the next
    /// slot, pending, and the keep-alive clock restarts.
    pub fn on_frame(&mut self, now: u64) -> (id: u64)
        requires
            old(self).wf(),
            old(self).phase == Phase::Running,
            old(self).slots@.len() < old(self).inflight,
            !old(self).back_pressure,
            old(self).next_id < u64::MAX,
        ensures
            final(self).wf(),
            id == old(self).next_id,
            final(self).next_id == old(self).next_id + 1,
            final(self).slots@ == old(self).slots@.push(Slot { id, result: None }),
            final(self).last_frame_at == now,
            final(self).phase == old(self).phase,
            final(self).inflight == old(self).inflight,
            final(self).keepalive == old(self).keepalive,
            final(self).keepalive_fired == old(self).keepalive_fired,
            final(self).error_delivered == old(self).error_delivered,
            final(self).disconnect_timeout == old(self).disconnect_timeout,
            final(self).shutdown_at == old(self).shutdown_at,
            final(self).back_pressure == old(self).back_pressure,
            final(self).write_hw == old(self).write_hw,
            final(self).lw == old(self).lw,
            final(self).written == old(self).written,
            final(self).bp_log == old(self).bp_log,
            final(self).item_marks@ == old(self).item_marks@.push(old(self).bp_log@.len() as int),
    {
        let id = self.next_id;
        self.slots.push(Slot { id, result: None });
        self.next_id = id + 1;
        self.last_frame_at = now;
        proof {
            self.item_marks@ = self.item_marks@.push(self.bp_log@.len() as int);
            assert(self.slot_ids() =~= old(self).slot_ids().push(id));
        }
        id
    }

    /// Record the service's response to request `id`. Returns whether a
    /// pending slot with that number was found; only that slot changes.
    pub fn on_response(&mut self, id: u64, resp: Option<R>) -> (found: bool)
        requires
            old(self).wf(),
        ensures
            final(self).wf(),
            found == exists|i: int|
                0 <= i < old(self).slots@.len() && old(self).slots@[i].id == id
                    && old(self).slots@[i].result is None,
            found ==> exists|i: int|
                0 <= i < old(self).slots@.len() && old(self).slots@[i].id == id
                    && old(self).slots@[i].result is None && final(self).slots@ == old(
                    self,
                ).slots@.update(i, Slot { id, result: Some(resp) }),
            !found ==> final(self).slots@ == old(self).slots@,
            final(self).next_id == old(self).next_id,
            final(self).last_frame_at == old(self).last_frame_at,
            final(self).phase == old(self).phase,
            final(self).inflight == old(self).inflight,
            final(self).keepalive == old(self).keepalive,
            final(self).keepalive_fired == old(self).keepalive_fired,
            final(self).error_delivered == old(self).error_delivered,
            final(self).disconnect_timeout == old(self).disconnect_timeout,
            final(self).shutdown_at == old(self).shutdown_at,
            final(self).back_pressure == old(self).back_pressure,
            final(self).write_hw == old(self).write_hw,
            final(self).lw == old(self).lw,
            final(self).written == old(self).written,
            final(self).bp_log == old(self).bp_log,
            final(self).item_marks == old(self).item_marks,
    {
        match self.find_pending(id) {
            Some(i) => {
                self.slots.set(i, Slot { id, result: Some(resp) });
                proof {
                    assert(self.slot_ids() =~= old(self).slot_ids());
                    assert forall|k: int| 0 <= k < self.slots@.len() implies self.slots@[k].id
                        == old(self).slots@[k].id by {
                        assert(self.slot_ids()[k] == old(self).slot_ids()[k]);
                    }
                }
                true
            },
            None => false,
        }
    }

    /// Position of the pending slot with arrival number `id`, if any.
    fn find_pending(&self, id: u64) -> (r: Option<usize>)
        ensures
            r matches Some(i) ==> i < self.slots@.len() && self.slots@[i as int].id == id
                && self.slots@[i as int].result is None,
            r is None ==> forall|k: int|
                0 <= k < self.slots@.len() ==> !(self.slots@[k].id == id
                    && self.slots@[k].result is None),
    {
        let mut i: usize = 0;
        while i < self.slots.len()
            invariant
                0 <= i <= self.slots@.len(),
                forall|k: int|
                    0 <= k < i ==> !(self.slots@[k].id == id && self.slots@[k].result is None),
            decreases self.slots@.len() - i,
        {
            if self.slots[i].id == id && self.slots[i].result.is_none() {
                return Some(i);
            }
            i = i + 1;
        }
        None
    }

    /// Everything but the queue and the record of written responses is
    /// the same in `self` and `o`.
    pub open spec fn same_outside_queue(&self, o: &Self) -> bool {
        &&& self.next_id == o.next_id
        &&& self.inflight == o.inflight
        &&& self.phase == o.phase
        &&& self.keepalive == o.keepalive
        &&& self.last_frame_at == o.last_frame_at
        &&& self.keepalive_fired == o.keepalive_fired
        &&& self.error_delivered == o.error_delivered
        &&& self.disconnect_timeout == o.disconnect_timeout
        &&& self.shutdown_at == o.shutdown_at
        &&& self.back_pressure == o.back_pressure
        &&& self.write_hw == o.write_hw
        &&& self.lw == o.lw
        &&& self.bp_log == o.bp_log
        &&& self.item_marks == o.item_marks
    }

    /// Remove the completed slots at the head of the queue and return the
    /// frames to write for them, in arrival order. A completed slot behind
    /// a pending one stays queued.
    pub fn take_ready(&mut self) -> (out: Vec<R>)
        requires
            old(self).wf(),
        ensures
            final(self).wf(),
            final(self).slots@ == old(self).slots@.skip(ready_len(old(self).slots@) as int),
            out@ == responses(old(self).slots@.take(ready_len(old(self).slots@) as int)),
            final(self).written@ == old(self).written@ + response_ids(
                old(self).slots@.take(ready_len(old(self).slots@) as int),
            ),
            final(self).same_outside_queue(old(self)),
    {
        let mut out: Vec<R> = Vec::new();
        let ghost s0 = self.slots@;
        let ghost w0 = self.written@;
        let ghost mut k: int = 0;
        proof {
            assert(s0.skip(0) =~= s0);
            assert(s0.take(0) =~= Seq::<Slot<R>>::empty());
        }
        while self.slots.len() > 0 && self.slots[0].result.is_some()
            invariant
                self.wf(),
                self.same_outside_queue(old(self)),
                0 <= k <= s0.len(),
                s0 == old(self).slots@,
                w0 == old(self).written@,
                self.slots@ == s0.skip(k),
                ready_len(s0) == k + ready_len(self.slots@),
                out@ == responses(s0.take(k)),
                self.written@ == w0 + response_ids(s0.take(k)),
            decreases self.slots@.len(),
        {
            let ghost before = self.slots@;
            let ghost ids_before = self.slot_ids();
            proof {
                assert(ready_len(before) == 1 + ready_len(before.skip(1)));
                assert(ids_before[0] == before[0].id);
            }
            let slot = self.slots.remove(0);
            proof {
                assert(self.slots@ =~= before.skip(1));
                assert(before.skip(1) =~= s0.skip(k + 1));
                assert(s0.take(k + 1).drop_last() =~= s0.take(k));
                assert(s0.take(k + 1).last() == s0[k]);
                assert(s0[k] == slot);
                assert(self.slot_ids() =~= ids_before.skip(1));
            }
            match slot.result {
                Some(Some(r)) => {
                    out.push(r);
                    proof {
                        self.written@ = self.written@.push(slot.id);
                    }
                },
                _ => {},
            }
            proof {
                assert(self.written@ =~= w0 + response_ids(s0.take(k + 1)));
                assert forall|i: int, j: int|
                    0 <= i < self.written@.len() && 0 <= j < self.slots@.len() implies self.written@[i]
                    < self.slots@[j].id by {
                    assert(self.slots@[j] == before[j + 1]);
                    assert(ids_before[j + 1] == before[j + 1].id);
                    if i < self.written@.len() - 1 || self.written@.len() == w0.len() + response_ids(s0.take(k)).len() {
                    } else {
                        assert(self.written@[i] == slot.id);
                    }
                }
                k = k + 1;
            }
        }
        out
    }

    /// Milliseconds from `from` to `now`, 0 if the clock reads earlier.
    pub open spec fn elapsed(from: u64, now: u64) -> int {
        if now >= from {
            now - from
        } else {
            0
        }
    }

    /// Whether the keep-alive interval has run out at `now`.
    pub open spec fn keepalive_expired(&self, now: u64) -> bool {
        self.keepalive > 0 && Self::elapsed(self.last_frame_at, now) >= self.keepalive as int * 1000
    }

    /// Whether the drain phase is over at `now`: nothing is left to write,
    /// or the disconnect timeout has elapsed.
    pub open spec fn drain_over(&self, now: u64) -> bool {
        self.slots@.len() == 0 || (self.disconnect_timeout > 0 && Self::elapsed(
            self.shutdown_at,
            now,
        ) >= self.disconnect_timeout as int)
    }

    /// Stop taking frames and begin the drain phase at `now`. Returns
    /// whether this call began it (the dispatcher was running).
    pub fn begin_shutdown(&mut self, now: u64) -> (began: bool)
        requires
            old(self).wf(),
        ensures
            final(self).wf(),
            began == (old(self).phase == Phase::Running),
            began ==> final(self).phase == Phase::ShuttingDown && final(self).shutdown_at == now,
            !began ==> final(self).phase == old(self).phase && final(self).shutdown_at == old(
                self,
            ).shutdown_at,
            final(self).slots@ == old(self).slots@,
            final(self).written == old(self).written,
            final(self).keepalive_fired == old(self).keepalive_fired,
            final(self).error_delivered == old(self).error_delivered,
            final(self).back_pressure == old(self).back_pressure,
            final(self).bp_log == old(self).bp_log,
            final(self).next_id == old(self).next_id,
            final(self).inflight == old(self).inflight,
            final(self).keepalive == old(self).keepalive,
            final(self).last_frame_at == old(self).last_frame_at,
            final(self).disconnect_timeout == old(self).disconnect_timeout,
            final(self).write_hw == old(self).write_hw,
            final(self).lw == old(self).lw,
            final(self).item_marks == old(self).item_marks,
    {
        if self.phase == Phase::Running {
            self.phase = Phase::ShuttingDown;
            self.shutdown_at = now;
            true
        } else {
            false
        }
    }

    /// Advance the clock to `now`. While running, an expired keep-alive
    /// yields `KeepAliveTimeout`, once, and starts the drain phase; while
    /// draining, the dispatcher stops when the drain is over.
    pub fn tick(&mut self, now: u64) -> (act: TickAction)
        requires
            old(self).wf(),
        ensures
            final(self).wf(),
            old(self).phase == Phase::Running && old(self).keepalive_expired(now) ==> act
                == TickAction::KeepAliveTimeout && final(self).phase == Phase::ShuttingDown
                && final(self).keepalive_fired && final(self).shutdown_at == now,
            old(self).phase == Phase::Running && !old(self).keepalive_expired(now) ==> act
                == TickAction::Idle && final(self).phase == Phase::Running
                && final(self).keepalive_fired == old(self).keepalive_fired
                && final(self).shutdown_at == old(self).shutdown_at,
            old(self).phase == Phase::ShuttingDown && old(self).drain_over(now) ==> act
                == TickAction::Stop && final(self).phase == Phase::Stopped,
            old(self).phase == Phase::ShuttingDown && !old(self).drain_over(now) ==> act
                == TickAction::Idle && final(self).phase == Phase::ShuttingDown,
            old(self).phase == Phase::Stopped ==> act == TickAction::Idle && final(self).phase
                == Phase::Stopped,
            old(self).phase != Phase::Running ==> final(self).keepalive_fired == old(
                self,
            ).keepalive_fired && final(self).shutdown_at == old(self).shutdown_at,
            final(self).error_delivered == old(self).error_delivered,
            final(self).slots@ == old(self).slots@,
            final(self).written == old(self).written,
            final(self).back_pressure == old(self).back_pressure,
            final(self).bp_log == old(self).bp_log,
            final(self).next_id == old(self).next_id,
            final(self).inflight == old(self).inflight,
            final(self).keepalive == old(self).keepalive,
            final(self).last_frame_at == old(self).last_frame_at,
            final(self).disconnect_timeout == old(self).disconnect_timeout,
            final(self).write_hw == old(self).write_hw,
            final(self).lw == old(self).lw,
            final(self).item_marks == old(self).item_marks,
    {
        match self.phase {
            Phase::Running => {
                let idle: u64 = if now >= self.last_frame_at {
                    now - self.last_frame_at
                } else {
                    0
                };
                if self.keepalive > 0 && idle >= self.keepalive as u64 * 1000 {
                    self.keepalive_fired = true;
                    self.phase = Phase::ShuttingDown;
                    self.shutdown_at = now;
                    TickAction::KeepAliveTimeout
                } else {
                    TickAction::Idle
                }
            },
            Phase::ShuttingDown => {
                let waited: u64 = if now >= self.shutdown_at {
                    now - self.shutdown_at
                } else {
                    0
                };
                if self.slots.len() == 0 || (self.disconnect_timeout > 0 && waited
                    >= self.disconnect_timeout as u64) {
                    self.phase = Phase::Stopped;
                    TickAction::Stop
                } else {
                    TickAction::Idle
                }
            },
            Phase::Stopped => TickAction::Idle,
        }
    }

    /// Report the write buffer's size. Back-pressure is enabled when it
    /// grows past `write_hw` and lifted when it drains to `lw`; only the
    /// transitions are reported.
    pub fn on_write_buffer(&mut self, len: usize) -> (ev: BackPressure)
        requires
            old(self).wf(),
        ensures
            final(self).wf(),
            !old(self).back_pressure && len > old(self).write_hw ==> ev == BackPressure::Enabled
                && final(self).back_pressure && final(self).bp_log@ == old(self).bp_log@.push(
                true,
            ),
            old(self).back_pressure && len <= old(self).lw ==> ev == BackPressure::Disabled
                && !final(self).back_pressure && final(self).bp_log@ == old(self).bp_log@.push(
                false,
            ),
            !(!old(self).back_pressure && len > old(self).write_hw) && !(old(self).back_pressure
                && len <= old(self).lw) ==> ev == BackPressure::Unchanged
                && final(self).back_pressure == old(self).back_pressure && final(self).bp_log
                == old(self).bp_log,
            final(self).slots@ == old(self).slots@,
            final(self).written == old(self).written,
            final(self).phase == old(self).phase,
            final(self).keepalive_fired == old(self).keepalive_fired,
            final(self).error_delivered == old(self).error_delivered,
            final(self).shutdown_at == old(self).shutdown_at,
            final(self).next_id == old(self).next_id,
            final(self).inflight == old(self).inflight,
            final(self).keepalive == old(self).keepalive,
            final(self).last_frame_at == old(self).last_frame_at,
            final(self).disconnect_timeout == old(self).disconnect_timeout,
            final(self).write_hw == old(self).write_hw,
            final(self).lw == old(self).lw,
            final(self).item_marks == old(self).item_marks,
    {
        if !self.back_pressure && len > self.write_hw {
            self.back_pressure = true;
            proof {
                self.bp_log@ = self.bp_log@.push(true);
            }
            BackPressure::Enabled
        } else if self.back_pressure && len <= self.lw {
            self.back_pressure = false;
            proof {
                self.bp_log@ = self.bp_log@.push(false);
            }
            BackPressure::Disabled
        } else {
            BackPressure::Unchanged
        }
    }

    /// An I/O, decode or encode error occurred at `now`. It is to be
    /// delivered to the service (as the matching `DispatchItem`) exactly
    /// when the dispatcher still runs; reading then stops and the drain
    /// phase begins, so no later error is delivered.
    pub fn on_error(&mut self, now: u64) -> (deliver: bool)
        requires
            old(self).wf(),
        ensures
            final(self).wf(),
            deliver == (old(self).phase == Phase::Running),
            deliver ==> final(self).phase == Phase::ShuttingDown && final(self).shutdown_at == now
                && final(self).error_delivered,
            !deliver ==> *final(self) == *old(self),
            final(self).phase != Phase::Running,
            final(self).slots@ == old(self).slots@,
            final(self).written == old(self).written,
            final(self).keepalive_fired == old(self).keepalive_fired,
            final(self).back_pressure == old(self).back_pressure,
            final(self).bp_log == old(self).bp_log,
            final(self).item_marks == old(self).item_marks,
            final(self).next_id == old(self).next_id,
            final(self).inflight == old(self).inflight,
            final(self).keepalive == old(self).keepalive,
            final(self).last_frame_at == old(self).last_frame_at,
            final(self).disconnect_timeout == old(self).disconnect_timeout,
            final(self).write_hw == old(self).write_hw,
            final(self).lw == old(self).lw,
    {
        if self.phase == Phase::Running {
            self.phase = Phase::ShuttingDown;
            self.shutdown_at = now;
            self.error_delivered = true;
            true
        } else {
            false
        }
    }

    /// Close at once: every pending request is abandoned, so none of their
    /// responses is written, and the dispatcher stops.
    pub fn force_close(&mut self)
        requires
            old(self).wf(),
        ensures
            final(self).wf(),
            final(self).phase == Phase::Stopped,
            final(self).slots@.len() == 0,
            final(self).written == old(self).written,
            final(self).next_id == old(self).next_id,
            final(self).keepalive_fired == old(self).keepalive_fired,
            final(self).error_delivered == old(self).error_delivered,
            final(self).back_pressure == old(self).back_pressure,
            final(self).bp_log == old(self).bp_log,
            final(self).item_marks == old(self).item_marks,
            final(self).inflight == old(self).inflight,
            final(self).keepalive == old(self).keepalive,
            final(self).last_frame_at == old(self).last_frame_at,
            final(self).disconnect_timeout == old(self).disconnect_timeout,
            final(self).write_hw == old(self).write_hw,
            final(self).lw == old(self).lw,
    {
        self.slots = Vec::new();
        self.phase = Phase::Stopped;
        proof {
            assert(self.slot_ids() =~= Seq::<u64>::empty());
        }
    }

    /// A publish or control call failed with `e`: the connection is
    /// aborted without writing a response for it or for any request still
    /// pending, and ends with `MqttError::Service(e)`.
    pub fn on_service_error<S, E>(&mut self, e: S) -> (r: MqttError<S, E>)
        requires
            old(self).wf(),
        ensures
            final(self).wf(),
            r == MqttError::<S, E>::Service(e),
            final(self).phase == Phase::Stopped,
            final(self).slots@.len() == 0,
            final(self).written == old(self).written,
            final(self).next_id == old(self).next_id,
            final(self).inflight == old(self).inflight,
            final(self).keepalive == old(self).keepalive,
            final(self).last_frame_at == old(self).last_frame_at,
            final(self).disconnect_timeout == old(self).disconnect_timeout,
            final(self).write_hw == old(self).write_hw,
            final(self).lw == old(self).lw,
    {
        self.force_close();
        MqttError::Service(e)
    }

    /// Whether another frame may be read and handed to the service: the
    /// dispatcher runs, a slot is free and write back-pressure is off.
    pub fn can_read(&self) -> (r: bool)
        ensures
            r == (self.phase == Phase::Running && self.slots@.len() < self.inflight
                && !self.back_pressure),
    {
        self.phase == Phase::Running && self.slots.len() < self.inflight && !self.back_pressure
    }
}

/// Responses reach the wire in the order their requests arrived: the
/// arrival numbers of the written responses increase, and each is below
/// that of every request still queued, so a later request's response
/// never overtakes an earlier one's.
pub proof fn lemma_responses_in_arrival_order<R>(d: Dispatcher<R>)
    requires
        d.wf(),
    ensures
        increasing(d.written@),
        forall|i: int, j: int|
            0 <= i < d.written@.len() && 0 <= j < d.slots@.len() ==> d.written@[i] < d.slots@[j].id,
        increasing(d.slot_ids()),
{
}

/// At no time are more requests unresolved than the in-flight bound.
pub proof fn lemma_inflight_bound<R>(d: Dispatcher<R>)
    requires
        d.wf(),
    ensures
        d.slots@.len() <= d.inflight,
{
}

/// A running dispatcher that has seen no frame for the keep-alive interval
/// plus one second has its keep-alive expired, so the next tick delivers
/// `KeepAliveTimeout`; once delivered, the dispatcher no longer runs, so it
/// is never delivered again.
pub proof fn lemma_keepalive_fires_once<R>(d: Dispatcher<R>, now: u64)
    requires
        d.wf(),
    ensures
        d.keepalive > 0 && now >= d.last_frame_at + (d.keepalive + 1) * 1000
            ==> d.keepalive_expired(now),
        d.keepalive_fired ==> d.phase != Phase::Running,
{
}

/// Once shutdown has begun, the drain is over when the disconnect timeout
/// has elapsed, whether or not the service has answered.
pub proof fn lemma_drain_bound<R>(d: Dispatcher<R>, now: u64)
    requires
        d.disconnect_timeout > 0,
        now >= d.shutdown_at + d.disconnect_timeout,
    ensures
        d.drain_over(now),
{
}

/// Back-pressure reports alternate `Enabled`, `Disabled`, ..., and the
/// current state is enabled exactly when the last report was `Enabled`.
pub proof fn lemma_back_pressure_alternates<R>(d: Dispatcher<R>)
    requires
        d.wf(),
    ensures
        alternating(d.bp_log@),
        d.back_pressure == (d.bp_log@.len() > 0 && d.bp_log@.last()),
{
    if d.bp_log@.len() > 0 {
        assert(d.bp_log@.last() == d.bp_log@[d.bp_log@.len() - 1]);
    }
}

/// Between two frames handed to the service, the back-pressure reports
/// are none, or `Enabled`, `Disabled`, ..., `Enabled`, `Disabled`: frames
/// are read only while back-pressure is off, so every `Enabled` in between
/// is lifted again before the next frame.
pub proof fn lemma_back_pressure_between_items<R>(d: Dispatcher<R>, i: int)
    requires
        d.wf(),
        0 <= i,
        i + 1 < d.item_marks@.len(),
    ensures
        ({
            let seg = d.bp_log@.subrange(d.item_marks@[i], d.item_marks@[i + 1]);
            &&& seg.len() % 2 == 0
            &&& forall|k: int| 0 <= k < seg.len() ==> seg[k] == (k % 2 == 0)
            &&& seg.len() > 0 ==> seg[0] && !seg.last()
        }),
{
    let a = d.item_marks@[i];
    let b = d.item_marks@[i + 1];
    let seg = d.bp_log@.subrange(a, b);
    assert forall|k: int| 0 <= k < seg.len() implies seg[k] == (k % 2 == 0) by {
        assert(seg[k] == d.bp_log@[a + k]);
        assert((a + k) % 2 == k % 2);
    }
    if seg.len() > 0 {
        assert(seg.last() == seg[seg.len() - 1]);
    }
}

/// An I/O, decode or encode error is delivered at most once: once one has
/// been delivered the dispatcher no longer runs, so `on_error` delivers no
/// other, and no further frame is read.
pub proof fn lemma_error_delivered_once<R>(d: Dispatcher<R>)
    requires
        d.wf(),
        d.error_delivered,
    ensures
        d.phase != Phase::Running,
{
}

} // verus!
