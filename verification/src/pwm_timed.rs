//! A second PWM controller: duty changes stamped with the time they are due, kept in a
//! priority queue ordered by that time (the greatest time comes out first), and a worker that
//! takes them out one by one, waits until each is due and applies it.
use vstd::prelude::*;

verus! {

/// A duty change for a channel, due at `timestamp` (microseconds).
#[derive(Debug, Clone, Copy, PartialEq, Eq, Structural)]
pub struct PwmAction {
    pub timestamp: u64,
    pub channel: usize,
    pub duty: u32,
    pub immediate: bool,
}

/// Why a duty change was refused.
#[derive(Debug, Clone, Copy, PartialEq, Eq, Structural)]
pub enum ControllerError {
    InvalidChannel,
}

impl ControllerError {
    /// The message of the error.
    pub fn message(&self) -> (s: String)
        ensures
            s@ == "Invalid channel number"@,
    {
        "Invalid channel number".to_owned()
    }
}

/// The number of channels of the controller.
pub const NUM_CONTROLLER_CHANNELS: usize = 4;

/// The controller: the queue of pending changes and whether its worker was asked to stop.
pub struct PwmController {
    pub queue: Vec<PwmAction>,
    pub should_stop: bool,
}

/// What the worker does next.
#[derive(Debug, Clone, Copy, PartialEq, Eq, Structural)]
pub enum WorkerStep {
    /// Nothing is queued: sleep 10 ms and look again.
    Idle,
    /// Wait `wait` microseconds, then set the channel's duty.
    Run { action: PwmAction, wait: u64 },
    /// The worker was asked to stop.
    Stop,
}

/// `a` is due no earlier than any queued change.
pub open spec fn is_latest(q: Seq<PwmAction>, a: PwmAction) -> bool {
    forall|j: int| 0 <= j < q.len() ==> #[trigger] q[j].timestamp <= a.timestamp
}

impl PwmController {
    /// A controller with nothing queued.
    pub fn new() -> (c: PwmController)
        ensures
            c.queue@ == Seq::<PwmAction>::empty(),
            !c.should_stop,
    {
        PwmController { queue: Vec::new(), should_stop: false }
    }

    /// Queues a duty change for `channel`, due now. Channels past the fourth are refused.
    pub fn set_duty(&mut self, channel: usize, duty: u32, immediate: bool, now: u64) -> (r: Result<(), ControllerError>)
        ensures
            channel >= NUM_CONTROLLER_CHANNELS ==> r == Err::<(), ControllerError>(ControllerError::InvalidChannel) && final(self).queue@ == old(self).queue@,
            channel < NUM_CONTROLLER_CHANNELS ==> r is Ok && final(self).queue@ == old(self).queue@.push(PwmAction { timestamp: now, channel, duty, immediate }),
            final(self).should_stop == old(self).should_stop,
    {
        if channel >= NUM_CONTROLLER_CHANNELS {
            return Err(ControllerError::InvalidChannel);
        }
        self.queue.push(PwmAction { timestamp: now, channel, duty, immediate });
        Ok(())
    }

    /// Queues a duty change for `channel`, due `delay` microseconds from now.
    pub fn set_duty_at(&mut self, channel: usize, duty: u32, delay: u64, immediate: bool, now: u64) -> (r: Result<(), ControllerError>)
        requires
            now + delay <= u64::MAX,
        ensures
            channel >= NUM_CONTROLLER_CHANNELS ==> r == Err::<(), ControllerError>(ControllerError::InvalidChannel) && final(self).queue@ == old(self).queue@,
            channel < NUM_CONTROLLER_CHANNELS ==> r is Ok && final(self).queue@ == old(self).queue@.push(PwmAction { timestamp: (now + delay) as u64, channel, duty, immediate }),
            final(self).should_stop == old(self).should_stop,
    {
        if channel >= NUM_CONTROLLER_CHANNELS {
            return Err(ControllerError::InvalidChannel);
        }
        self.queue.push(PwmAction { timestamp: now + delay, channel, duty, immediate });
        Ok(())
    }

    /// Turns the channel on at `duty`, now.
    pub fn turn_on(&mut self, channel: usize, duty: u32, now: u64) -> (r: Result<(), ControllerError>)
        ensures
            channel >= NUM_CONTROLLER_CHANNELS ==> r is Err && final(self).queue@ == old(self).queue@,
            channel < NUM_CONTROLLER_CHANNELS ==> r is Ok && final(self).queue@ == old(self).queue@.push(PwmAction { timestamp: now, channel, duty, immediate: false }),
            final(self).should_stop == old(self).should_stop,
    {
        self.set_duty(channel, duty, false, now)
    }

    /// Turns the channel off, now.
    pub fn turn_off(&mut self, channel: usize, now: u64) -> (r: Result<(), ControllerError>)
        ensures
            channel >= NUM_CONTROLLER_CHANNELS ==> r is Err && final(self).queue@ == old(self).queue@,
            channel < NUM_CONTROLLER_CHANNELS ==> r is Ok && final(self).queue@ == old(self).queue@.push(PwmAction { timestamp: now, channel, duty: 0, immediate: false }),
            final(self).should_stop == old(self).should_stop,
    {
        self.set_duty(channel, 0, false, now)
    }

    /// Turns the channel on at `duty`, `delay` microseconds from now.
    pub fn turn_on_at(&mut self, channel: usize, duty: u32, delay: u64, now: u64) -> (r: Result<(), ControllerError>)
        requires
            now + delay <= u64::MAX,
        ensures
            channel >= NUM_CONTROLLER_CHANNELS ==> r is Err && final(self).queue@ == old(self).queue@,
            channel < NUM_CONTROLLER_CHANNELS ==> r is Ok && final(self).queue@ == old(self).queue@.push(PwmAction { timestamp: (now + delay) as u64, channel, duty, immediate: false }),
            final(self).should_stop == old(self).should_stop,
    {
        self.set_duty_at(channel, duty, delay, false, now)
    }

    /// Turns the channel off, `delay` microseconds from now.
    pub fn turn_off_at(&mut self, channel: usize, delay: u64, now: u64) -> (r: Result<(), ControllerError>)
        requires
            now + delay <= u64::MAX,
        ensures
            channel >= NUM_CONTROLLER_CHANNELS ==> r is Err && final(self).queue@ == old(self).queue@,
            channel < NUM_CONTROLLER_CHANNELS ==> r is Ok && final(self).queue@ == old(self).queue@.push(PwmAction { timestamp: (now + delay) as u64, channel, duty: 0, immediate: false }),
            final(self).should_stop == old(self).should_stop,
    {
        self.set_duty_at(channel, 0, delay, false, now)
    }

    /// Asks the worker to stop.
    pub fn stop(&mut self)
        ensures
            final(self).should_stop,
            final(self).queue@ == old(self).queue@,
    {
        self.should_stop = true;
    }

    /// Takes out the queued change due latest (the first such, where several are due at the
    /// same time).
    pub fn pop_latest(&mut self) -> (r: Option<PwmAction>)
        ensures
            old(self).queue@.len() == 0 ==> r is None && final(self).queue@ == old(self).queue@,
            old(self).queue@.len() > 0 ==> (r matches Some(a) && exists|i: int| #![trigger old(self).queue@[i]]
                0 <= i < old(self).queue@.len() && old(self).queue@[i] == a
                && final(self).queue@ == old(self).queue@.remove(i)
                && is_latest(old(self).queue@, a)),
            final(self).should_stop == old(self).should_stop,
    {
        let n = self.queue.len();
        if n == 0 {
            return None;
        }
        let mut best: usize = 0;
        let mut i: usize = 1;
        while i < n
            invariant
                n == self.queue@.len(),
                self.queue@ == old(self).queue@,
                1 <= i <= n,
                best < i,
                forall|j: int| 0 <= j < i ==> #[trigger] self.queue@[j].timestamp <= self.queue@[best as int].timestamp,
            decreases n - i,
        {
            if self.queue[i].timestamp > self.queue[best].timestamp {
                best = i;
            }
            i = i + 1;
        }
        let a = self.queue.remove(best);
        assert(old(self).queue@[best as int] == a);
        Some(a)
    }

    /// The worker's next step at time `now`: stop when asked to, sleep when nothing is queued,
    /// else take out the change due latest and wait until it is due.
    pub fn worker_step(&mut self, now: u64) -> (s: WorkerStep)
        ensures
            old(self).should_stop ==> s == WorkerStep::Stop && final(self).queue@ == old(self).queue@,
            !old(self).should_stop && old(self).queue@.len() == 0 ==> s == WorkerStep::Idle && final(self).queue@ == old(self).queue@,
            !old(self).should_stop && old(self).queue@.len() > 0 ==> (s matches WorkerStep::Run { action, wait }
                && wait == (if action.timestamp > now { action.timestamp - now } else { 0 })
                && exists|i: int| #![trigger old(self).queue@[i]]
                    0 <= i < old(self).queue@.len() && old(self).queue@[i] == action
                    && final(self).queue@ == old(self).queue@.remove(i)
                    && is_latest(old(self).queue@, action)),
            final(self).should_stop == old(self).should_stop,
    {
        if self.should_stop {
            return WorkerStep::Stop;
        }
        match self.pop_latest() {
            None => WorkerStep::Idle,
            Some(action) => {
                let wait = if action.timestamp > now { action.timestamp - now } else { 0 };
                WorkerStep::Run { action, wait }
            },
        }
    }
}

/// Of two changes queued for the same time-ordered queue, the later one comes out first.
pub proof fn lemma_later_first(a: PwmAction, b: PwmAction)
    requires
        a.timestamp < b.timestamp,
    ensures
        !is_latest(seq![a, b], a),
        is_latest(seq![a, b], b),
{
    assert(seq![a, b][1] == b);
}

} // verus!
