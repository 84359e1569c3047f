//! The reminder state machine: one step from a state, the periods and the
//! current time to the next state, the commands for the window and the
//! instant of the next wake-up.
//!
//! Instants are milliseconds on a monotonic clock whose origin the host
//! chooses. Deadlines are `u128`, so that no sum of an instant and a period
//! can overflow.

use vstd::prelude::*;
use crate::palette::{advanced, ColorCycle, Rgba, palette_color, PALETTE_LEN};
use crate::timing::{lemma_view_valid, Periods, ReminderTiming};
use crate::laws::lemma_deadline_not_before_now;

verus! {

/// What the scheduler is doing: waiting for the next reminder, or showing
/// one.
#[derive(Clone, Copy, Debug, PartialEq, Eq, Structural)]
pub enum ReminderState {
    Idle { last_reminder_end: u64 },
    Active { active_start: u64, last_switch: u64 },
}

/// `ReminderState` over unbounded instants.
pub enum Phase {
    Idle { since: int },
    Active { start: int, last_switch: int },
}

impl View for ReminderState {
    type V = Phase;

    open spec fn view(&self) -> Phase {
        match *self {
            ReminderState::Idle { last_reminder_end } => Phase::Idle {
                since: last_reminder_end as int,
            },
            ReminderState::Active { active_start, last_switch } => Phase::Active {
                start: active_start as int,
                last_switch: last_switch as int,
            },
        }
    }
}

/// What one step did.
#[derive(Clone, Copy, Debug, PartialEq, Eq, Structural)]
pub enum Transition {
    /// Nothing was due.
    Wait,
    /// A reminder began.
    Begin,
    /// The running reminder moved to its next colour.
    Switch,
    /// The running reminder ended.
    End,
}

/// An intent for the window system.
#[derive(Clone, Copy, Debug, PartialEq, Eq, Structural)]
pub enum Command {
    SetAlwaysOnTop(bool),
    SetFullscreen(bool),
    Show,
    Hide,
    RequestRedraw,
}

/// Time passed since `since`, zero where the clock reads earlier than it.
pub open spec fn elapsed(now: int, since: int) -> int {
    if now >= since {
        now - since
    } else {
        0
    }
}

/// The transition that is due at `now`. The end of a reminder goes before a
/// colour switch that is due at the same time.
pub open spec fn transition_at(p: Phase, t: Periods, now: int) -> Transition {
    match p {
        Phase::Idle { since } => if elapsed(now, since) >= t.interval {
            Transition::Begin
        } else {
            Transition::Wait
        },
        Phase::Active { start, last_switch } => if now >= start + t.duration {
            Transition::End
        } else if now >= last_switch + t.flash {
            Transition::Switch
        } else {
            Transition::Wait
        },
    }
}

/// The state after the step taken at `now`.
pub open spec fn phase_after(p: Phase, t: Periods, now: int) -> Phase {
    match (transition_at(p, t, now), p) {
        (Transition::Begin, _) => Phase::Active { start: now, last_switch: now },
        (Transition::Switch, Phase::Active { start, last_switch }) => Phase::Active {
            start,
            last_switch: now,
        },
        (Transition::End, _) => Phase::Idle { since: now },
        _ => p,
    }
}

/// The earliest instant at which a state wants its next step.
pub open spec fn wake_at(p: Phase, t: Periods) -> int {
    match p {
        Phase::Idle { since } => since + t.interval,
        Phase::Active { start, last_switch } => if last_switch + t.flash <= start + t.duration {
            last_switch + t.flash
        } else {
            start + t.duration
        },
    }
}

/// The commands a transition sends to the window system, in order.
pub open spec fn commands_for(tr: Transition) -> Seq<Command> {
    match tr {
        Transition::Wait => seq![],
        Transition::Begin => seq![
            Command::SetAlwaysOnTop(true),
            Command::SetFullscreen(true),
            Command::Show,
            Command::RequestRedraw,
        ],
        Transition::Switch => seq![Command::RequestRedraw],
        Transition::End => seq![
            Command::Hide,
            Command::SetFullscreen(false),
            Command::SetAlwaysOnTop(false),
        ],
    }
}

/// The result of one step.
#[derive(Debug)]
pub struct Step {
    pub state: ReminderState,
    pub transition: Transition,
    pub commands: Vec<Command>,
    pub deadline: u128,
}

/// The transition that is due at `now`.
pub fn classify(state: ReminderState, timing: ReminderTiming, now: u64) -> (tr: Transition)
    ensures
        tr == transition_at(state@, timing@, now as int),
{
    match state {
        ReminderState::Idle { last_reminder_end } => {
            let waited: u64 = if now >= last_reminder_end {
                now - last_reminder_end
            } else {
                0
            };
            if (waited as u128) >= timing.interval_ms() {
                Transition::Begin
            } else {
                Transition::Wait
            }
        },
        ReminderState::Active { active_start, last_switch } => {
            if (now as u128) >= (active_start as u128) + timing.duration_ms() {
                Transition::End
            } else if (now as u128) >= (last_switch as u128) + timing.flash_ms() {
                Transition::Switch
            } else {
                Transition::Wait
            }
        },
    }
}

/// The earliest instant at which `state` wants its next step: the end of the
/// interval while idle, the next colour switch or the reminder's end,
/// whichever comes first, while active.
pub fn next_deadline(state: ReminderState, timing: ReminderTiming) -> (deadline: u128)
    ensures
        deadline == wake_at(state@, timing@),
{
    match state {
        ReminderState::Idle { last_reminder_end } => (last_reminder_end as u128)
            + timing.interval_ms(),
        ReminderState::Active { active_start, last_switch } => {
            let next_switch: u128 = (last_switch as u128) + timing.flash_ms();
            let next_end: u128 = (active_start as u128) + timing.duration_ms();
            if next_switch <= next_end {
                next_switch
            } else {
                next_end
            }
        },
    }
}

/// The commands a transition sends to the window system, in order.
pub fn commands(tr: Transition) -> (out: Vec<Command>)
    ensures
        out@ == commands_for(tr),
{
    let mut out: Vec<Command> = Vec::new();
    match tr {
        Transition::Wait => {},
        Transition::Begin => {
            out.push(Command::SetAlwaysOnTop(true));
            out.push(Command::SetFullscreen(true));
            out.push(Command::Show);
            out.push(Command::RequestRedraw);
        },
        Transition::Switch => {
            out.push(Command::RequestRedraw);
        },
        Transition::End => {
            out.push(Command::Hide);
            out.push(Command::SetFullscreen(false));
            out.push(Command::SetAlwaysOnTop(false));
        },
    }
    assert(out@ =~= commands_for(tr));
    out
}

/// One step of the state machine at the instant `now`.
pub fn step(state: ReminderState, timing: ReminderTiming, now: u64) -> (out: Step)
    ensures
        out.transition == transition_at(state@, timing@, now as int),
        out.state@ == phase_after(state@, timing@, now as int),
        out.commands@ == commands_for(out.transition),
        out.deadline == wake_at(out.state@, timing@),
        out.deadline >= now,
{
    proof {
        lemma_view_valid(timing);
        lemma_deadline_not_before_now(state@, timing@, now as int);
    }
    let transition = classify(state, timing, now);
    let next = match (transition, state) {
        (Transition::Begin, _) => ReminderState::Active { active_start: now, last_switch: now },
        (Transition::Switch, ReminderState::Active { active_start, last_switch: _ }) => {
            ReminderState::Active { active_start, last_switch: now }
        },
        (Transition::End, _) => ReminderState::Idle { last_reminder_end: now },
        _ => state,
    };
    Step {
        state: next,
        transition,
        commands: commands(transition),
        deadline: next_deadline(next, timing),
    }
}

/// A phase together with the position of the colour cycle.
pub struct Model {
    pub phase: Phase,
    pub index: nat,
}

/// The model after the step taken at `now`: the phase moves as
/// `phase_after` says, and the colour moves on exactly in a `Switch`.
pub open spec fn model_after(m: Model, t: Periods, now: int) -> Model {
    Model {
        phase: phase_after(m.phase, t, now),
        index: if transition_at(m.phase, t, now) == Transition::Switch {
            advanced(m.index, 1)
        } else {
            m.index
        },
    }
}

/// What a tick hands to the host.
#[derive(Debug)]
pub struct Tick {
    pub transition: Transition,
    pub commands: Vec<Command>,
    pub deadline: u128,
}

/// The whole mutable state of the reminder: periods, state and colour
/// cycle. The colour cycle is never reset: a reminder starts on the colour
/// the last one ended on.
#[derive(Debug)]
pub struct Scheduler {
    pub timing: ReminderTiming,
    pub state: ReminderState,
    pub colors: ColorCycle,
}

impl View for Scheduler {
    type V = Model;

    open spec fn view(&self) -> Model {
        Model { phase: self.state@, index: self.colors@ }
    }
}

impl Scheduler {
    /// A scheduler that starts idle at `now`, on the first colour.
    pub fn new(timing: ReminderTiming, now: u64) -> (s: Scheduler)
        ensures
            s.timing == timing,
            s.state == (ReminderState::Idle { last_reminder_end: now }),
            s.colors@ == 0,
    {
        Scheduler {
            timing,
            state: ReminderState::Idle { last_reminder_end: now },
            colors: ColorCycle::new(),
        }
    }

    /// Whether a reminder is showing.
    pub fn is_active(&self) -> (b: bool)
        ensures
            b == (self.state is Active),
    {
        match self.state {
            ReminderState::Active { .. } => true,
            ReminderState::Idle { .. } => false,
        }
    }

    /// The colour a redraw paints.
    pub fn current_color(&self) -> (c: Rgba)
        ensures
            c == palette_color(self.colors@ as int),
            self.colors@ < PALETTE_LEN,
    {
        self.colors.current()
    }

    /// The earliest instant at which the next tick is wanted.
    pub fn deadline(&self) -> (d: u128)
        ensures
            d == wake_at(self.state@, self.timing@),
    {
        next_deadline(self.state, self.timing)
    }

    /// Takes the step that is due at `now`, moves the colour cycle on where
    /// the step is a switch, and reports the commands and the next deadline.
    pub fn tick(&mut self, now: u64) -> (out: Tick)
        ensures
            final(self).timing == old(self).timing,
            final(self)@ == model_after(old(self)@, old(self).timing@, now as int),
            out.transition == transition_at(old(self).state@, old(self).timing@, now as int),
            out.commands@ == commands_for(out.transition),
            out.deadline == wake_at(final(self).state@, old(self).timing@),
            out.deadline >= now,
    {
        let s = step(self.state, self.timing, now);
        self.state = s.state;
        match s.transition {
            Transition::Switch => {
                self.colors.advance();
            },
            _ => {},
        }
        Tick { transition: s.transition, commands: s.commands, deadline: s.deadline }
    }
}

} // verus!
