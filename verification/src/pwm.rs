//! The PWM output channels: their states, the actions on them, and the scheduler that runs
//! timed commands.
use vstd::prelude::*;

verus! {

/// The number of PWM output channels.
pub const NUM_CHANNELS: usize = 4;

/// One of the PWM output channels.
#[derive(Copy, Clone, Debug, PartialEq, Eq, Hash, Structural)]
pub enum PwmNumber {
    Pwm0,
    Pwm1,
    Pwm2,
    Pwm3,
}

/// A channel number that names no channel.
#[derive(Copy, Clone, Debug, PartialEq, Eq, Structural)]
pub struct PwmOutOfBounds;

/// The answer of the PWM runner once it has executed a command.
#[derive(Copy, Clone, Debug, PartialEq, Eq, Structural)]
pub struct PwmResponse;

pub open spec fn pwm_index(n: PwmNumber) -> usize {
    match n {
        PwmNumber::Pwm0 => 0,
        PwmNumber::Pwm1 => 1,
        PwmNumber::Pwm2 => 2,
        PwmNumber::Pwm3 => 3,
    }
}

pub open spec fn spec_pwm_try_from(v: u8) -> Result<PwmNumber, PwmOutOfBounds> {
    if v == 0 {
        Ok(PwmNumber::Pwm0)
    } else if v == 1 {
        Ok(PwmNumber::Pwm1)
    } else if v == 2 {
        Ok(PwmNumber::Pwm2)
    } else if v == 3 {
        Ok(PwmNumber::Pwm3)
    } else {
        Err(PwmOutOfBounds)
    }
}

impl PwmNumber {
    /// The index of the channel, from 0 to 3.
    pub fn index(self) -> (i: usize)
        ensures
            i == pwm_index(self),
            i < NUM_CHANNELS,
    {
        match self {
            PwmNumber::Pwm0 => 0,
            PwmNumber::Pwm1 => 1,
            PwmNumber::Pwm2 => 2,
            PwmNumber::Pwm3 => 3,
        }
    }

    /// The channel with number `val`, if there is one.
    pub fn try_from_u8(val: u8) -> (r: Result<PwmNumber, PwmOutOfBounds>)
        ensures
            r == spec_pwm_try_from(val),
    {
        match val {
            0 => Ok(PwmNumber::Pwm0),
            1 => Ok(PwmNumber::Pwm1),
            2 => Ok(PwmNumber::Pwm2),
            3 => Ok(PwmNumber::Pwm3),
            _ => Err(PwmOutOfBounds),
        }
    }
}

impl From<PwmNumber> for usize {
    fn from(val: PwmNumber) -> (i: usize) {
        val.index()
    }
}

impl vstd::std_specs::convert::FromSpecImpl<PwmNumber> for usize {
    open spec fn obeys_from_spec() -> bool {
        true
    }

    open spec fn from_spec(v: PwmNumber) -> usize {
        pwm_index(v)
    }
}

/// A channel's number names the channel again.
pub proof fn lemma_pwm_number_round_trip(n: PwmNumber)
    ensures
        spec_pwm_try_from(pwm_index(n) as u8) == Ok::<PwmNumber, PwmOutOfBounds>(n),
{
}

/// Milliseconds.
pub type Time = u64;

/// An action on one PWM channel.
#[derive(Copy, Clone, Debug, PartialEq, Eq, Hash, Structural)]
pub enum PwmAction {
    On(PwmNumber),
    Off(PwmNumber),
    SetDuty(PwmNumber, u16),
    SetDutyPct(PwmNumber, u8),
    IncDutyPct(PwmNumber, u8),
    DecDutyPct(PwmNumber, u8),
    UnfreezePin(PwmNumber),
    Toggle(PwmNumber),
    FreezePin(PwmNumber, Time),
}

pub open spec fn action_channel(a: PwmAction) -> PwmNumber {
    match a {
        PwmAction::On(c) => c,
        PwmAction::Off(c) => c,
        PwmAction::SetDuty(c, _) => c,
        PwmAction::SetDutyPct(c, _) => c,
        PwmAction::IncDutyPct(c, _) => c,
        PwmAction::DecDutyPct(c, _) => c,
        PwmAction::UnfreezePin(c) => c,
        PwmAction::Toggle(c) => c,
        PwmAction::FreezePin(c, _) => c,
    }
}

impl PwmAction {
    /// The channel that the action applies to.
    pub fn channel(&self) -> (c: PwmNumber)
        ensures
            c == action_channel(*self),
    {
        match *self {
            PwmAction::On(c) => c,
            PwmAction::Off(c) => c,
            PwmAction::SetDuty(c, _) => c,
            PwmAction::SetDutyPct(c, _) => c,
            PwmAction::IncDutyPct(c, _) => c,
            PwmAction::DecDutyPct(c, _) => c,
            PwmAction::UnfreezePin(c) => c,
            PwmAction::Toggle(c) => c,
            PwmAction::FreezePin(c, _) => c,
        }
    }
}

/// An action to run at a time (a delay when sent, an absolute time once queued).
#[derive(Copy, Clone, Debug, PartialEq, Eq, Hash, Structural)]
pub struct Command {
    pub action: PwmAction,
    pub time: Time,
}

impl Command {
    pub fn new(action: PwmAction, time: Time) -> (c: Command)
        ensures
            c.action == action,
            c.time == time,
    {
        Command { action, time }
    }
}

/// Whether a channel is switched on.
#[derive(Copy, Clone, Debug, PartialEq, Eq, Structural)]
pub enum PwmPinState {
    Off,
    On,
}

/// The state of one channel: on or off, its duty (14-bit), and its freeze timer.
#[derive(Copy, Clone, Debug, PartialEq, Eq, Structural)]
pub struct PwmPinInfo {
    pub state: PwmPinState,
    pub duty: u16,
    pub freeze_timer: Time,
    pub frozen: bool,
}

/// The duty as a percentage of the 14-bit range, truncated to a byte.
pub open spec fn spec_duty_pct(duty: u16) -> u8 {
    (duty / 163) as u8
}

/// `pct` percent of `max_duty`, truncated to 16 bits.
pub open spec fn spec_pct_to_duty(max_duty: u32, pct: u8) -> u16 {
    ((max_duty * pct) / 100) as u16
}

impl PwmPinInfo {
    /// A channel that is off, at full duty, not frozen.
    pub fn new() -> (p: PwmPinInfo)
        ensures
            p == (PwmPinInfo { state: PwmPinState::Off, duty: 16383, freeze_timer: 0, frozen: false }),
    {
        PwmPinInfo { state: PwmPinState::Off, duty: 16383, freeze_timer: 0, frozen: false }
    }

    /// The duty as an integer percentage, taking the duty as 14-bit.
    pub fn get_duty_pct(&self) -> (p: u8)
        ensures
            p == spec_duty_pct(self.duty),
    {
        (self.duty / 163) as u8
    }
}

/// `pct` percent of `max_duty`.
pub fn pct_to_duty(max_duty: u32, pct: u8) -> (d: u16)
    requires
        max_duty * pct <= u32::MAX,
    ensures
        d == spec_pct_to_duty(max_duty, pct),
{
    ((max_duty * pct as u32) / 100) as u16
}

proof fn lemma_duty_product(max_duty: u32, p: u8)
    requires
        max_duty <= 0xffff,
    ensures
        max_duty * p <= u32::MAX,
{
    assert(max_duty * p <= 0xffff * 255) by (nonlinear_arith)
        requires
            max_duty <= 0xffff,
            p <= 255,
    ;
}

/// What executing an action asks of the channel hardware.
#[derive(Copy, Clone, Debug, PartialEq, Eq, Structural)]
pub enum ChannelOp {
    /// Set the duty cycle to this raw value.
    SetDutyCycle(u16),
    /// Set the duty to this percentage.
    SetDutyPct(u8),
}

/// An action can run without overflow: raising a duty below 100% by `p` keeps the percentage
/// in a byte, and the maximum duty times a percentage fits in 32 bits.
pub open spec fn action_ok(pin: PwmPinInfo, action: PwmAction, max_duty: u32) -> bool {
    &&& max_duty <= 0xffff
    &&& match action {
        PwmAction::IncDutyPct(_, p) => spec_duty_pct(pin.duty) < 100 ==> spec_duty_pct(pin.duty) + p <= 255,
        _ => true,
    }
}

/// The new state of the channel that `action` applies to, and what it asks of the hardware.
pub open spec fn spec_execute(pin: PwmPinInfo, action: PwmAction, max_duty: u32) -> (PwmPinInfo, Option<ChannelOp>) {
    let on = pin.state == PwmPinState::On;
    match action {
        PwmAction::On(_) => (PwmPinInfo { state: PwmPinState::On, ..pin }, Some(ChannelOp::SetDutyCycle(pin.duty))),
        PwmAction::Off(_) => (PwmPinInfo { state: PwmPinState::Off, ..pin }, Some(ChannelOp::SetDutyCycle(0))),
        PwmAction::SetDuty(_, d) => (PwmPinInfo { duty: d, ..pin }, if on { Some(ChannelOp::SetDutyCycle(d)) } else { None }),
        PwmAction::SetDutyPct(_, p) => (
            PwmPinInfo { duty: (164 * p) as u16, ..pin },
            if on { Some(ChannelOp::SetDutyCycle(spec_pct_to_duty(max_duty, p))) } else { None },
        ),
        PwmAction::IncDutyPct(_, p) => {
            let cur = spec_duty_pct(pin.duty);
            if cur < 100 {
                let target = if cur + p < 100 { (cur + p) as u8 } else { 100u8 };
                let d = spec_pct_to_duty(max_duty, target);
                (PwmPinInfo { duty: d, ..pin }, if on { Some(ChannelOp::SetDutyCycle(d)) } else { None })
            } else {
                (pin, None)
            }
        },
        PwmAction::DecDutyPct(_, p) => {
            let cur = spec_duty_pct(pin.duty);
            if cur > 0 {
                let lowered = if cur >= p { (cur - p) as u8 } else { 0u8 };
                (PwmPinInfo { duty: (164 * lowered) as u16, ..pin }, if on { Some(ChannelOp::SetDutyPct(lowered)) } else { None })
            } else {
                (pin, None)
            }
        },
        PwmAction::UnfreezePin(_) => if pin.frozen {
            (PwmPinInfo { frozen: false, ..pin }, Some(ChannelOp::SetDutyCycle(if on { pin.duty } else { 0 })))
        } else {
            (pin, None)
        },
        PwmAction::Toggle(_) => if on {
            (PwmPinInfo { state: PwmPinState::Off, ..pin }, Some(ChannelOp::SetDutyCycle(0)))
        } else {
            (PwmPinInfo { state: PwmPinState::On, ..pin }, Some(ChannelOp::SetDutyCycle(pin.duty)))
        },
        PwmAction::FreezePin(_, t) => (PwmPinInfo { frozen: true, freeze_timer: t, ..pin }, None),
    }
}

/// Executes `action` on the state `pin` of its channel: returns the channel's new state and
/// the operation, if any, that the channel hardware must perform.
pub fn execute_command(pin: PwmPinInfo, action: PwmAction, max_duty: u32) -> (r: (PwmPinInfo, Option<ChannelOp>))
    requires
        action_ok(pin, action, max_duty),
    ensures
        r == spec_execute(pin, action, max_duty),
{
    let on = pin.state == PwmPinState::On;
    match action {
        PwmAction::On(_) => (PwmPinInfo { state: PwmPinState::On, ..pin }, Some(ChannelOp::SetDutyCycle(pin.duty))),
        PwmAction::Off(_) => (PwmPinInfo { state: PwmPinState::Off, ..pin }, Some(ChannelOp::SetDutyCycle(0))),
        PwmAction::SetDuty(_, duty) => {
            let op = if on { Some(ChannelOp::SetDutyCycle(duty)) } else { None };
            (PwmPinInfo { duty, ..pin }, op)
        },
        PwmAction::SetDutyPct(_, pct) => {
            proof { lemma_duty_product(max_duty, pct); }
            let duty_pct = pct_to_duty(max_duty, pct);
            let op = if on { Some(ChannelOp::SetDutyCycle(duty_pct)) } else { None };
            (PwmPinInfo { duty: 164 * pct as u16, ..pin }, op)
        },
        PwmAction::IncDutyPct(_, p) => {
            let cur = pin.get_duty_pct();
            if cur < 100 {
                let sum = cur + p;
                let target = if sum < 100 { sum } else { 100 };
                proof { lemma_duty_product(max_duty, target); }
                let d = pct_to_duty(max_duty, target);
                let op = if on { Some(ChannelOp::SetDutyCycle(d)) } else { None };
                (PwmPinInfo { duty: d, ..pin }, op)
            } else {
                (pin, None)
            }
        },
        PwmAction::DecDutyPct(_, p) => {
            let cur = pin.get_duty_pct();
            if cur > 0 {
                let lowered = cur.saturating_sub(p);
                let op = if on { Some(ChannelOp::SetDutyPct(lowered)) } else { None };
                (PwmPinInfo { duty: 164 * lowered as u16, ..pin }, op)
            } else {
                (pin, None)
            }
        },
        PwmAction::UnfreezePin(_) => {
            if pin.frozen {
                let d = if on { pin.duty } else { 0 };
                (PwmPinInfo { frozen: false, ..pin }, Some(ChannelOp::SetDutyCycle(d)))
            } else {
                (pin, None)
            }
        },
        PwmAction::Toggle(_) => {
            if on {
                (PwmPinInfo { state: PwmPinState::Off, ..pin }, Some(ChannelOp::SetDutyCycle(0)))
            } else {
                (PwmPinInfo { state: PwmPinState::On, ..pin }, Some(ChannelOp::SetDutyCycle(pin.duty)))
            }
        },
        PwmAction::FreezePin(_, t) => (PwmPinInfo { frozen: true, freeze_timer: t, ..pin }, None),
    }
}

/// Setting a duty of at most 100% and reading it back as a percentage gives the same number.
pub proof fn lemma_set_pct_reads_back(pin: PwmPinInfo, c: PwmNumber, pct: u8, max_duty: u32)
    requires
        pct <= 100,
    ensures
        spec_duty_pct(spec_execute(pin, PwmAction::SetDutyPct(c, pct), max_duty).0.duty) == pct,
{
    assert((164 * pct) / 163 == pct) by (nonlinear_arith)
        requires
            pct <= 100,
    ;
}

/// Raising a channel below 100% by `p` percent sets its duty to `min(cur + p, 100)` percent of
/// the maximum, where `cur` is its current percentage, so the percentage it is driven at never
/// drops below `cur`; only the duty changes, and the hardware is told the new duty when the
/// channel is on. A channel already at 100% or more is left as it is.
pub proof fn lemma_inc_duty_pct(pin: PwmPinInfo, c: PwmNumber, p: u8, max_duty: u32)
    requires
        action_ok(pin, PwmAction::IncDutyPct(c, p), max_duty),
    ensures
        ({
            let cur = spec_duty_pct(pin.duty) as int;
            let (np, op) = spec_execute(pin, PwmAction::IncDutyPct(c, p), max_duty);
            &&& cur < 100 ==> {
                &&& np.duty as int == max_duty * vstd::math::min(cur + p, 100) / 100
                &&& np.duty as int >= max_duty * cur / 100
                &&& np == (PwmPinInfo { duty: np.duty, ..pin })
                &&& op == if pin.state == PwmPinState::On { Some(ChannelOp::SetDutyCycle(np.duty)) } else { None }
            }
            &&& cur >= 100 ==> np == pin && op is None
        }),
{
    let cur = spec_duty_pct(pin.duty) as int;
    if cur < 100 {
        let t = vstd::math::min(cur + p, 100);
        let m = max_duty as int;
        assert(m * t / 100 <= m) by (nonlinear_arith)
            requires
                0 <= t <= 100,
                0 <= m,
        ;
        assert(m * cur / 100 <= m * t / 100) by (nonlinear_arith)
            requires
                0 <= cur <= t,
                0 <= m,
        {
            assert(m * cur <= m * t);
            vstd::arithmetic::div_mod::lemma_div_is_ordered(m * cur, m * t, 100);
        }
        assert(0 <= m * t / 100) by (nonlinear_arith)
            requires
                0 <= t,
                0 <= m,
        ;
    }
}

/// Lowering a channel above 0% by `p` percent sets it to `max(cur - p, 0)` percent, where `cur`
/// is its current percentage, so it never rises; only the duty changes, and the hardware is told
/// the new percentage when the channel is on. A channel at 0% is left as it is.
pub proof fn lemma_dec_duty_pct(pin: PwmPinInfo, c: PwmNumber, p: u8, max_duty: u32)
    ensures
        ({
            let cur = spec_duty_pct(pin.duty) as int;
            let lowered = vstd::math::max(cur - p, 0);
            let (np, op) = spec_execute(pin, PwmAction::DecDutyPct(c, p), max_duty);
            &&& cur > 0 ==> {
                &&& np.duty as int == 164 * lowered
                &&& lowered <= cur
                &&& np == (PwmPinInfo { duty: np.duty, ..pin })
                &&& op == if pin.state == PwmPinState::On { Some(ChannelOp::SetDutyPct(lowered as u8)) } else { None }
            }
            &&& cur == 0 ==> np == pin && op is None
        }),
{
    assert(pin.duty / 163 <= 402);
}

/// Switching a channel on drives it at its stored duty, switching it off drives it at 0, and
/// neither forgets the duty; setting a raw duty stores it and drives it only when the channel is
/// on; freezing stores the timer and drives nothing, and unfreezing a frozen channel drives it
/// at its duty when on and at 0 when off.
pub proof fn lemma_execute_switches(pin: PwmPinInfo, c: PwmNumber, d: u16, t: Time, max_duty: u32)
    ensures
        spec_execute(pin, PwmAction::On(c), max_duty)
            == (PwmPinInfo { state: PwmPinState::On, ..pin }, Some(ChannelOp::SetDutyCycle(pin.duty))),
        spec_execute(pin, PwmAction::Off(c), max_duty)
            == (PwmPinInfo { state: PwmPinState::Off, ..pin }, Some(ChannelOp::SetDutyCycle(0))),
        spec_execute(pin, PwmAction::SetDuty(c, d), max_duty).0 == (PwmPinInfo { duty: d, ..pin }),
        spec_execute(pin, PwmAction::SetDuty(c, d), max_duty).1
            == if pin.state == PwmPinState::On { Some(ChannelOp::SetDutyCycle(d)) } else { None },
        spec_execute(pin, PwmAction::FreezePin(c, t), max_duty)
            == (PwmPinInfo { frozen: true, freeze_timer: t, ..pin }, None::<ChannelOp>),
        pin.frozen ==> spec_execute(pin, PwmAction::UnfreezePin(c), max_duty) == (
            PwmPinInfo { frozen: false, ..pin },
            Some(ChannelOp::SetDutyCycle(if pin.state == PwmPinState::On { pin.duty } else { 0 })),
        ),
        !pin.frozen ==> spec_execute(pin, PwmAction::UnfreezePin(c), max_duty) == (pin, None::<ChannelOp>),
{
}

/// Toggling a channel twice gives back its state, and both toggles drive the channel.
pub proof fn lemma_toggle_twice(pin: PwmPinInfo, c: PwmNumber, max_duty: u32)
    ensures
        spec_execute(spec_execute(pin, PwmAction::Toggle(c), max_duty).0, PwmAction::Toggle(c), max_duty).0 == pin,
        spec_execute(pin, PwmAction::Toggle(c), max_duty).1 is Some,
{
}

/// Only the freeze and unfreeze actions touch the freeze flag, and only freezing sets it.
pub proof fn lemma_freeze_flag(pin: PwmPinInfo, a: PwmAction, max_duty: u32)
    ensures
        spec_execute(pin, a, max_duty).0.frozen == match a {
            PwmAction::FreezePin(_, _) => true,
            PwmAction::UnfreezePin(_) => false,
            _ => pin.frozen,
        },
{
}


/// The position of the first command with the earliest time.
pub open spec fn due_index(q: Seq<Command>) -> int
    decreases q.len(),
{
    if q.len() <= 1 {
        0
    } else {
        let m = due_index(q.drop_last());
        if q.last().time < q[m].time { q.len() - 1 } else { m }
    }
}

pub proof fn lemma_due_index(q: Seq<Command>)
    requires
        q.len() > 0,
    ensures
        0 <= due_index(q) < q.len(),
        forall|j: int| 0 <= j < q.len() ==> q[due_index(q)].time <= #[trigger] q[j].time,
    decreases q.len(),
{
    if q.len() > 1 {
        lemma_due_index(q.drop_last());
        let m = due_index(q.drop_last());
        assert forall|j: int| 0 <= j < q.len() implies q[due_index(q)].time <= #[trigger] q[j].time by {
            if j < q.len() - 1 {
                assert(q.drop_last()[j] == q[j]);
            }
        }
    }
}

/// The decisions of the PWM runner: the queue of timed commands and the state of each channel.
pub struct PwmRunner {
    queue: Vec<Command>,
    pins: Vec<PwmPinInfo>,
    max_duty: u32,
}

impl PwmRunner {
    /// The queued commands, with the absolute times at which they run.
    pub closed spec fn queue(&self) -> Seq<Command> {
        self.queue@
    }

    /// The state of each channel, by index.
    pub closed spec fn pins(&self) -> Seq<PwmPinInfo> {
        self.pins@
    }

    /// The raw duty that stands for 100%.
    pub closed spec fn max_duty(&self) -> u32 {
        self.max_duty
    }

    pub closed spec fn wf(&self) -> bool {
        self.pins@.len() == NUM_CHANNELS && self.max_duty <= 0xffff
    }

    /// A runner with no queued command and every channel as [`PwmPinInfo::new`] makes it.
    pub fn new(max_duty: u16) -> (r: PwmRunner)
        ensures
            r.wf(),
            r.queue() == Seq::<Command>::empty(),
            r.max_duty() == max_duty,
            r.pins().len() == NUM_CHANNELS,
            forall|i: int| 0 <= i < NUM_CHANNELS ==> #[trigger] r.pins()[i] == (PwmPinInfo { state: PwmPinState::Off, duty: 16383, freeze_timer: 0, frozen: false }),
    {
        let mut pins: Vec<PwmPinInfo> = Vec::new();
        let mut i: usize = 0;
        while i < NUM_CHANNELS
            invariant
                i <= NUM_CHANNELS,
                pins@.len() == i,
                forall|j: int| 0 <= j < i ==> #[trigger] pins@[j] == (PwmPinInfo { state: PwmPinState::Off, duty: 16383, freeze_timer: 0, frozen: false }),
            decreases NUM_CHANNELS - i,
        {
            pins.push(PwmPinInfo::new());
            i = i + 1;
        }
        PwmRunner { queue: Vec::new(), pins, max_duty: max_duty as u32 }
    }

    /// The state of channel `c`.
    pub fn pin_state(&self, c: PwmNumber) -> (p: PwmPinInfo)
        requires
            self.wf(),
        ensures
            p == self.pins()[pwm_index(c) as int],
    {
        self.pins[c.index()]
    }

    /// How long until the earliest queued command is due, if any is queued.
    pub fn next_delay(&self, now: Time) -> (d: Option<Time>)
        ensures
            self.queue().len() == 0 ==> d is None,
            self.queue().len() > 0 ==> d == Some::<Time>(
                if self.queue()[due_index(self.queue())].time >= now { (self.queue()[due_index(self.queue())].time - now) as Time } else { 0 }),
    {
        if self.queue.len() == 0 {
            return None;
        }
        let i = self.due();
        proof { lemma_due_index(self.queue@); }
        let t = self.queue[i].time;
        Some(t.saturating_sub(now))
    }

    /// The position of the due command.
    fn due(&self) -> (i: usize)
        requires
            self.queue@.len() > 0,
        ensures
            i == due_index(self.queue@),
    {
        let n = self.queue.len();
        let mut best: usize = 0;
        let mut k: usize = 1;
        while k < n
            invariant
                n == self.queue@.len(),
                1 <= k <= n,
                best == due_index(self.queue@.take(k as int)),
                best < k,
            decreases n - k,
        {
            proof {
                let q = self.queue@.take(k + 1);
                assert(q.drop_last() =~= self.queue@.take(k as int));
                lemma_due_index(self.queue@.take(k as int));
            }
            if self.queue[k].time < self.queue[best].time {
                best = k;
            }
            k = k + 1;
        }
        assert(self.queue@.take(n as int) =~= self.queue@);
        best
    }

    /// The smallest freeze timer of the channels.
    pub fn next_unfreeze(&self) -> (t: Time)
        requires
            self.wf(),
        ensures
            exists|i: int| 0 <= i < NUM_CHANNELS && t == self.pins()[i].freeze_timer,
            forall|i: int| 0 <= i < NUM_CHANNELS ==> t <= #[trigger] self.pins()[i].freeze_timer,
    {
        let mut t = self.pins[0].freeze_timer;
        let mut i: usize = 1;
        let ghost mut w: int = 0;
        while i < NUM_CHANNELS
            invariant
                self.wf(),
                1 <= i <= NUM_CHANNELS,
                0 <= w < i,
                t == self.pins@[w].freeze_timer,
                forall|j: int| 0 <= j < i ==> t <= #[trigger] self.pins@[j].freeze_timer,
            decreases NUM_CHANNELS - i,
        {
            if self.pins[i].freeze_timer < t {
                t = self.pins[i].freeze_timer;
                proof { w = i as int; }
            }
            i = i + 1;
        }
        t
    }

    /// Queues a command sent `now`: it becomes due `c.time` milliseconds later.
    pub fn receive(&mut self, c: Command, now: Time)
        requires
            c.time + now <= u64::MAX,
        ensures
            final(self).queue() == old(self).queue().push(Command { action: c.action, time: (c.time + now) as Time }),
            final(self).pins() == old(self).pins(),
            final(self).max_duty() == old(self).max_duty(),
            old(self).wf() ==> final(self).wf(),
    {
        self.queue.push(Command::new(c.action, c.time + now));
    }

    /// Runs the due command: takes it off the queue and executes it on its channel. Returns
    /// the channel and what it asks of the channel hardware.
    pub fn run_due(&mut self) -> (r: (PwmNumber, Option<ChannelOp>))
        requires
            old(self).wf(),
            old(self).queue().len() > 0,
            ({
                let cmd = old(self).queue()[due_index(old(self).queue())];
                action_ok(old(self).pins()[pwm_index(action_channel(cmd.action)) as int], cmd.action, old(self).max_duty())
            }),
        ensures
            final(self).wf(),
            final(self).max_duty() == old(self).max_duty(),
            ({
                let i = due_index(old(self).queue());
                let cmd = old(self).queue()[i];
                let c = action_channel(cmd.action);
                let (np, op) = spec_execute(old(self).pins()[pwm_index(c) as int], cmd.action, old(self).max_duty());
                &&& final(self).queue() == old(self).queue().remove(i)
                &&& final(self).pins() == old(self).pins().update(pwm_index(c) as int, np)
                &&& r == (c, op)
                &&& forall|j: int| 0 <= j < old(self).queue().len() ==> cmd.time <= #[trigger] old(self).queue()[j].time
            }),
    {
        proof { lemma_due_index(self.queue@); }
        let i = self.due();
        let cmd = self.queue.remove(i);
        let c = cmd.action.channel();
        let idx = c.index();
        let (np, op) = execute_command(self.pins[idx], cmd.action, self.max_duty);
        self.pins.set(idx, np);
        (c, op)
    }

    /// Counts `elapsed` milliseconds off every freeze timer; a channel whose timer reaches zero
    /// is unfrozen.
    pub fn unfreeze_elapsed(&mut self, elapsed: Time)
        requires
            old(self).wf(),
            forall|i: int| 0 <= i < NUM_CHANNELS ==> elapsed <= #[trigger] old(self).pins()[i].freeze_timer,
        ensures
            final(self).wf(),
            final(self).queue() == old(self).queue(),
            final(self).max_duty() == old(self).max_duty(),
            forall|i: int| 0 <= i < NUM_CHANNELS ==> {
                let p = #[trigger] old(self).pins()[i];
                let t = (p.freeze_timer - elapsed) as Time;
                final(self).pins()[i] == PwmPinInfo { freeze_timer: t, frozen: if t == 0 { false } else { p.frozen }, ..p }
            },
    {
        let mut i: usize = 0;
        while i < NUM_CHANNELS
            invariant
                self.wf(),
                self.queue@ == old(self).queue@,
                self.max_duty == old(self).max_duty,
                old(self).pins@.len() == NUM_CHANNELS,
                i <= NUM_CHANNELS,
                forall|j: int| 0 <= j < NUM_CHANNELS ==> elapsed <= #[trigger] old(self).pins@[j].freeze_timer,
                forall|j: int| i <= j < NUM_CHANNELS ==> #[trigger] self.pins@[j] == old(self).pins@[j],
                forall|j: int| 0 <= j < i ==> {
                    let p = #[trigger] old(self).pins@[j];
                    let t = (p.freeze_timer - elapsed) as Time;
                    self.pins@[j] == PwmPinInfo { freeze_timer: t, frozen: if t == 0 { false } else { p.frozen }, ..p }
                },
            decreases NUM_CHANNELS - i,
        {
            let p = self.pins[i];
            let t = p.freeze_timer - elapsed;
            let np = PwmPinInfo { freeze_timer: t, frozen: if t == 0 { false } else { p.frozen }, ..p };
            self.pins.set(i, np);
            i = i + 1;
        }
    }
}

} // verus!
