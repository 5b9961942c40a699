//! Pacing of frame production against the viewers' acknowledgements.
//!
//! After a frame went out, the capture loop waits until every connection
//! that received it has acknowledged it, but never longer than a ceiling:
//! fast viewers wait for slow ones, and a stalled viewer starves nobody.

use crate::clock::{elapsed, millis, spec_elapsed, spec_millis};
use std::collections::HashSet;
use vstd::prelude::*;

verus! {

broadcast use vstd::std_specs::hash::group_hash_axioms;

/// The ceiling of one wait for acknowledgements, in milliseconds.
pub const ACK_TIMEOUT_MILLIS: u64 = 3000;

/// What came of one receive on the acknowledgement channel.
#[derive(Clone, Copy, Debug, PartialEq, Eq, Structural)]
pub enum AckEvent {
    /// Connection `id` has dispatched the frame; `sent_at` is the clock
    /// reading it reported, if any.
    Received { id: i32, sent_at: Option<u64> },
    /// Nothing arrived within the time allowed.
    TimedOut,
    /// The channel has no senders left.
    Closed,
}

/// What the capture thread does next while waiting.
#[derive(Clone, Copy, Debug, PartialEq, Eq, Structural)]
pub enum WaitStep {
    /// Receive once more, for at most `timeout_millis`.
    Receive { timeout_millis: u64 },
    /// The wait is over.
    Finished,
}

/// The frame controller: when the last frame went out, who is to
/// acknowledge it, and the wait that is under way.
pub struct VideoFrameController {
    /// Clock reading of the last frame sent.
    pub cur: u64,
    /// The connections that are to acknowledge that frame.
    pub send_conn_ids: HashSet<i32>,
    /// The connections among them that have acknowledged it during the
    /// wait under way.
    pub fetched_conn_ids: HashSet<i32>,
    /// Clock reading at which the wait under way began.
    pub wait_begin: u64,
    /// The ceiling of the wait under way, in milliseconds.
    pub wait_timeout: u64,
}

/// The controller as plain values.
pub struct ControllerView {
    pub cur: u64,
    pub armed: Set<i32>,
    pub fetched: Set<i32>,
    pub wait_begin: u64,
    pub wait_timeout: u64,
}

impl View for VideoFrameController {
    type V = ControllerView;

    open spec fn view(&self) -> ControllerView {
        ControllerView {
            cur: self.cur,
            armed: self.send_conn_ids@,
            fetched: self.fetched_conn_ids@,
            wait_begin: self.wait_begin,
            wait_timeout: self.wait_timeout,
        }
    }
}

impl ControllerView {
    /// The controller after `reset`: nobody is to acknowledge.
    pub open spec fn reset(self) -> ControllerView {
        ControllerView { armed: Set::empty(), ..self }
    }

    /// The controller after a frame went out at `tm` to `conn_ids`. A frame
    /// that reached nobody leaves the controller as it was.
    pub open spec fn set_send(self, tm: u64, conn_ids: Set<i32>) -> ControllerView {
        if conn_ids.is_empty() {
            self
        } else {
            ControllerView { cur: tm, armed: conn_ids, ..self }
        }
    }

    /// The controller once a wait with ceiling `timeout_millis` began at
    /// `now`: nobody has acknowledged yet.
    pub open spec fn begin_wait(self, now: u64, timeout_millis: u64) -> ControllerView {
        if self.armed.is_empty() {
            self
        } else {
            ControllerView {
                fetched: Set::empty(),
                wait_begin: now,
                wait_timeout: timeout_millis,
                ..self
            }
        }
    }

    /// The first step of a wait with ceiling `timeout_millis` that begins
    /// at `now`: with nobody armed the wait is over at once.
    pub open spec fn first_step(self, now: u64, timeout_millis: u64) -> WaitStep {
        if self.armed.is_empty() {
            WaitStep::Finished
        } else {
            self.begin_wait(now, timeout_millis).poll(now)
        }
    }

    /// What is left of the wait at `now`: another receive for the rest of
    /// the ceiling, or the end where the ceiling is reached.
    pub open spec fn poll(self, now: u64) -> WaitStep {
        let waited = spec_millis(spec_elapsed(now, self.wait_begin));
        if waited < self.wait_timeout {
            WaitStep::Receive { timeout_millis: (self.wait_timeout - waited) as u64 }
        } else {
            WaitStep::Finished
        }
    }

    /// Whether every armed connection has acknowledged.
    pub open spec fn all_acknowledged(self) -> bool {
        self.armed.subset_of(self.fetched)
    }

    /// The controller after `event`: an acknowledgement of an armed
    /// connection is noted; one of a connection that is not armed changes
    /// nothing. Who is armed, and since when, stays as it was.
    pub open spec fn acknowledged(self, event: AckEvent) -> ControllerView {
        match event {
            AckEvent::Received { id, sent_at } if self.armed.contains(id) => ControllerView {
                fetched: self.fetched.insert(id),
                ..self
            },
            _ => self,
        }
    }

    /// The step after `event` at `now`: the wait ends where the receive
    /// timed out or every armed connection has acknowledged, else it goes on
    /// for what is left of the ceiling.
    pub open spec fn step_after(self, event: AckEvent, now: u64) -> WaitStep {
        match event {
            AckEvent::TimedOut => WaitStep::Finished,
            AckEvent::Received { id, sent_at } => if self.acknowledged(event).all_acknowledged() {
                WaitStep::Finished
            } else {
                self.poll(now)
            },
            AckEvent::Closed => self.poll(now),
        }
    }
}

impl VideoFrameController {
    /// A controller with nobody armed.
    pub fn new(now: u64) -> (c: VideoFrameController)
        ensures
            c@ == (ControllerView {
                cur: now,
                armed: Set::empty(),
                fetched: Set::empty(),
                wait_begin: now,
                wait_timeout: 0,
            }),
    {
        VideoFrameController {
            cur: now,
            send_conn_ids: HashSet::new(),
            fetched_conn_ids: HashSet::new(),
            wait_begin: now,
            wait_timeout: 0,
        }
    }

    /// Forgets who was armed. Called before each new frame.
    pub fn reset(&mut self)
        ensures
            final(self)@ == old(self)@.reset(),
    {
        self.send_conn_ids.clear();
    }

    /// Records that a frame went out at `tm` to `conn_ids`.
    pub fn set_send(&mut self, tm: u64, conn_ids: HashSet<i32>)
        ensures
            final(self)@ == old(self)@.set_send(tm, conn_ids@),
    {
        if !conn_ids.is_empty() {
            self.cur = tm;
            self.send_conn_ids = conn_ids;
        }
    }

    /// What is left of the wait at `now`.
    pub fn poll(&self, now: u64) -> (step: WaitStep)
        ensures
            step == self@.poll(now),
    {
        let waited = millis(elapsed(now, self.wait_begin));
        if waited < self.wait_timeout {
            WaitStep::Receive { timeout_millis: self.wait_timeout - waited }
        } else {
            WaitStep::Finished
        }
    }

    /// Whether every armed connection has acknowledged.
    pub fn all_acknowledged(&self) -> (done: bool)
        ensures
            done == self@.all_acknowledged(),
    {
        let ghost armed = self.send_conn_ids@;
        let ghost mut seen: Seq<i32> = Seq::empty();
        for id in it: self.send_conn_ids.iter()
            invariant
                armed == self.send_conn_ids@,
                it.seq().unref().to_set() == armed,
                seen.len() == it.index(),
                seen.len() == it.seq().len() ==> seen.to_set() == armed,
                forall|j: int| 0 <= j < seen.len() ==> seen[j] == *#[trigger] it.seq()[j],
                forall|j: int| 0 <= j < seen.len() ==> self.fetched_conn_ids@.contains(seen[j]),
        {
            assert(it.seq().unref()[it.index()] == *id);
            assert(it.seq().unref().contains(*id));
            if !self.fetched_conn_ids.contains(id) {
                assert(armed.contains(*id));
                return false;
            }
            proof {
                seen = seen.push(*id);
            }
            assert(seen.len() == it.seq().len() ==> seen =~= it.seq().unref());
        }
        assert forall|id: i32| armed.contains(id) implies self.fetched_conn_ids@.contains(id) by {
            assert(seen.contains(id));
        }
        true
    }

    /// Begins the wait for acknowledgements at `now`, with a ceiling of
    /// `timeout_millis`. With nobody armed there is nothing to wait for.
    pub fn begin_wait(&mut self, now: u64, timeout_millis: u64) -> (step: WaitStep)
        ensures
            final(self)@ == old(self)@.begin_wait(now, timeout_millis),
            step == old(self)@.first_step(now, timeout_millis),
            final(self)@.armed == old(self)@.armed,
            final(self).cur == old(self).cur,
    {
        if self.send_conn_ids.is_empty() {
            return WaitStep::Finished;
        }
        self.fetched_conn_ids.clear();
        self.wait_begin = now;
        self.wait_timeout = timeout_millis;
        self.poll(now)
    }

    /// Takes what one receive brought at `now`, and says how the wait goes
    /// on. Waiting changes neither who is armed nor when the frame went out.
    pub fn blocking_wait_next(&mut self, event: AckEvent, now: u64) -> (step: WaitStep)
        ensures
            final(self)@ == old(self)@.acknowledged(event),
            step == old(self)@.step_after(event, now),
            final(self)@.armed == old(self)@.armed,
            final(self).cur == old(self).cur,
    {
        match event {
            AckEvent::TimedOut => WaitStep::Finished,
            AckEvent::Received { id, sent_at: _ } => {
                if self.send_conn_ids.contains(&id) {
                    self.fetched_conn_ids.insert(id);
                }
                if self.all_acknowledged() {
                    WaitStep::Finished
                } else {
                    self.poll(now)
                }
            },
            AckEvent::Closed => self.poll(now),
        }
    }
}

/// With nobody armed the wait is over at once, whatever the ceiling.
pub proof fn lemma_wait_without_recipients_is_over(c: ControllerView, now: u64, timeout: u64)
    requires
        c.armed.is_empty(),
    ensures
        c.first_step(now, timeout) == WaitStep::Finished,
        c.begin_wait(now, timeout) == c,
{
}

/// While an armed connection has yet to acknowledge and receives do not
/// time out, the wait goes on until the ceiling is reached, and each
/// receive is allowed exactly what is left of the ceiling.
pub proof fn lemma_wait_lasts_to_the_ceiling(c: ControllerView, event: AckEvent, now: u64)
    requires
        event != AckEvent::TimedOut,
        !c.acknowledged(event).all_acknowledged(),
    ensures
        c.step_after(event, now) == WaitStep::Finished <==> spec_millis(
            spec_elapsed(now, c.wait_begin),
        ) >= c.wait_timeout,
        c.step_after(event, now) matches WaitStep::Receive { timeout_millis } ==> spec_millis(
            spec_elapsed(now, c.wait_begin),
        ) + timeout_millis == c.wait_timeout,
{
}

/// The wait is over as soon as the last armed connection has acknowledged,
/// however little of the ceiling has passed.
pub proof fn lemma_wait_ends_with_last_acknowledgement(c: ControllerView, id: i32, now: u64)
    requires
        c.armed.contains(id),
        c.armed.subset_of(c.fetched.insert(id)),
    ensures
        c.step_after(AckEvent::Received { id, sent_at: None }, now) == WaitStep::Finished,
        c.acknowledged(AckEvent::Received { id, sent_at: None }).all_acknowledged(),
{
}

/// An acknowledgement of a connection that is not armed changes nothing,
/// and leaves the ceiling where it was.
pub proof fn lemma_stray_acknowledgement_is_ignored(c: ControllerView, id: i32)
    requires
        !c.armed.contains(id),
    ensures
        c.acknowledged(AckEvent::Received { id, sent_at: None }) == c,
{
}

/// Waiting does not disarm the controller: through the beginning of a wait
/// and through every event, the armed connections and the time of the
/// frame stay as `reset` and `set_send` left them.
pub proof fn lemma_wait_keeps_the_armed_set(
    c: ControllerView,
    begin: u64,
    timeout: u64,
    event: AckEvent,
)
    ensures
        c.begin_wait(begin, timeout).armed == c.armed,
        c.begin_wait(begin, timeout).cur == c.cur,
        c.acknowledged(event).armed == c.armed,
        c.acknowledged(event).cur == c.cur,
{
}

} // verus!
