//! What holds of the state machine over whole runs: deadlines never lie in
//! the past, and a host that wakes exactly at each deadline sees reminders
//! begin, switch colour and end at the instants the periods give.

use vstd::prelude::*;
use crate::palette::{advanced, lemma_advanced_adds, PALETTE_LEN};
use crate::scheduler::{model_after, phase_after, transition_at, wake_at, Model, Phase, Transition};
use crate::timing::Periods;

verus! {

/// The model after `n` steps, each taken exactly at the deadline of the
/// state before it.
pub open spec fn punctual(m: Model, t: Periods, n: nat) -> Model
    decreases n,
{
    if n == 0 {
        m
    } else {
        punctual(model_after(m, t, wake_at(m.phase, t)), t, (n - 1) as nat)
    }
}

/// The colour switches still to come in a reminder that ends at `end` and
/// switched last at `last_switch`: one for each multiple of `flash` after
/// `last_switch` that lies strictly before `end`.
pub open spec fn switches_left(last_switch: int, end: int, flash: int) -> nat
    decreases end - last_switch,
{
    if flash >= 1 && last_switch + flash < end {
        1 + switches_left(last_switch + flash, end, flash)
    } else {
        0
    }
}

/// The colour switches of one whole reminder under a punctual host.
pub open spec fn switches_in_period(t: Periods) -> nat {
    if t.duration <= 0 {
        0
    } else {
        ((t.duration - 1) / t.flash) as nat
    }
}

/// The next deadline is never before the instant of the step that set it,
/// and lies strictly after it unless a reminder of no length began or an
/// interval of no length started. Idle, it is the end of the interval;
/// active, the earlier of the next switch and the reminder's end.
pub proof fn lemma_deadline_not_before_now(p: Phase, t: Periods, now: int)
    requires
        t.valid(),
    ensures
        wake_at(phase_after(p, t, now), t) >= now,
        transition_at(p, t, now) == Transition::Wait || transition_at(p, t, now)
            == Transition::Switch ==> wake_at(phase_after(p, t, now), t) > now,
        transition_at(p, t, now) == Transition::Begin && t.duration > 0 ==> wake_at(
            phase_after(p, t, now),
            t,
        ) > now,
        transition_at(p, t, now) == Transition::End && t.interval > 0 ==> wake_at(
            phase_after(p, t, now),
            t,
        ) > now,
        phase_after(p, t, now) matches Phase::Idle { since } ==> wake_at(phase_after(p, t, now), t)
            == since + t.interval,
        phase_after(p, t, now) matches Phase::Active { start, last_switch } ==> {
            &&& wake_at(phase_after(p, t, now), t) <= last_switch + t.flash
            &&& wake_at(phase_after(p, t, now), t) <= start + t.duration
            &&& (wake_at(phase_after(p, t, now), t) == last_switch + t.flash || wake_at(
                phase_after(p, t, now),
                t,
            ) == start + t.duration)
        },
{
}

/// A reminder begins exactly when the interval has passed since the last
/// one ended, and ends exactly when its duration has passed since it began.
pub proof fn lemma_begin_and_end_instants(p: Phase, t: Periods, now: int)
    requires
        t.valid(),
    ensures
        p matches Phase::Idle { since } ==> now >= since ==> (transition_at(p, t, now)
            == Transition::Begin <==> now >= since + t.interval),
        p matches Phase::Active { start, last_switch } ==> (transition_at(p, t, now)
            == Transition::End <==> now >= start + t.duration),
        transition_at(p, t, now) == Transition::Begin ==> phase_after(p, t, now) == (Phase::Active {
            start: now,
            last_switch: now,
        }),
        transition_at(p, t, now) == Transition::End ==> phase_after(p, t, now) == (Phase::Idle {
            since: now,
        }),
{
}

/// `switches_left` in closed form.
pub proof fn lemma_switches_left_closed(last_switch: int, end: int, flash: int)
    requires
        flash >= 1,
    ensures
        last_switch < end ==> switches_left(last_switch, end, flash) == (end - last_switch - 1)
            / flash,
        last_switch >= end ==> switches_left(last_switch, end, flash) == 0,
    decreases end - last_switch,
{
    if last_switch + flash < end {
        lemma_switches_left_closed(last_switch + flash, end, flash);
        let x = end - last_switch - 1;
        assert((x - flash) / flash + 1 == x / flash) by (nonlinear_arith)
            requires
                flash >= 1,
                x >= flash,
        ;
    } else if last_switch < end {
        let x = end - last_switch - 1;
        assert(x / flash == 0) by (nonlinear_arith)
            requires
                flash >= 1,
                0 <= x < flash,
        ;
    }
}

/// A reminder under a punctual host, from any point of it: the `k`-th step
/// is a colour switch at the `k`-th multiple of the flash interval, for as
/// many switches as are left; the step after the last switch ends the
/// reminder exactly at `start + duration`. The colours follow the palette's
/// order, wrapping at its end.
pub proof fn lemma_punctual_reminder(start: int, last_switch: int, index: nat, t: Periods)
    requires
        t.valid(),
        index < PALETTE_LEN,
    ensures
        forall|k: nat|
            k <= switches_left(last_switch, start + t.duration, t.flash) ==> #[trigger] punctual(
                Model { phase: Phase::Active { start, last_switch }, index },
                t,
                k,
            ) == (Model {
                phase: Phase::Active { start, last_switch: last_switch + k * t.flash },
                index: advanced(index, k),
            }),
        punctual(
            Model { phase: Phase::Active { start, last_switch }, index },
            t,
            switches_left(last_switch, start + t.duration, t.flash) + 1,
        ) == (Model {
            phase: Phase::Idle { since: start + t.duration },
            index: advanced(index, switches_left(last_switch, start + t.duration, t.flash)),
        }),
    decreases start + t.duration - last_switch,
{
    let end = start + t.duration;
    let m = Model { phase: Phase::Active { start, last_switch }, index };
    let n = switches_left(last_switch, end, t.flash);
    if last_switch + t.flash < end {
        let m1 = Model {
            phase: Phase::Active { start, last_switch: last_switch + t.flash },
            index: advanced(index, 1),
        };
        assert(model_after(m, t, wake_at(m.phase, t)) == m1);
        lemma_punctual_reminder(start, last_switch + t.flash, advanced(index, 1), t);
        let n1 = switches_left(last_switch + t.flash, end, t.flash);
        assert forall|k: nat| k <= n implies #[trigger] punctual(m, t, k) == (Model {
            phase: Phase::Active { start, last_switch: last_switch + k * t.flash },
            index: advanced(index, k),
        }) by {
            if k > 0 {
                let j = (k - 1) as nat;
                assert(punctual(m, t, k) == punctual(m1, t, j));
                lemma_advanced_adds(index, 1, j);
                assert(t.flash + j * t.flash == k * t.flash) by (nonlinear_arith)
                    requires
                        k == j + 1,
                ;
            }
        }
        assert(punctual(m, t, n + 1) == punctual(m1, t, n1 + 1));
        lemma_advanced_adds(index, 1, n1);
    } else {
        let m1 = Model { phase: Phase::Idle { since: end }, index };
        assert(model_after(m, t, wake_at(m.phase, t)) == m1);
        assert(punctual(m, t, 1) == punctual(m1, t, 0));
        assert forall|k: nat| k <= n implies #[trigger] punctual(m, t, k) == (Model {
            phase: Phase::Active { start, last_switch: last_switch + k * t.flash },
            index: advanced(index, k),
        }) by {
            assert(k * t.flash == 0) by (nonlinear_arith)
                requires
                    k == 0,
            ;
        }
    }
}

/// The colour switches made by the steps taken at the instants `ticks`, in
/// order, until the running reminder ends or the instants run out.
pub open spec fn switches_made(p: Phase, t: Periods, ticks: Seq<int>) -> nat
    decreases ticks.len(),
{
    if ticks.len() == 0 || !(p is Active) {
        0
    } else {
        let made: nat = if transition_at(p, t, ticks[0]) == Transition::Switch {
            1
        } else {
            0
        };
        made + switches_made(phase_after(p, t, ticks[0]), t, ticks.drop_first())
    }
}

/// The later the last switch, the fewer switches are left.
pub proof fn lemma_switches_left_shrinks(earlier: int, later: int, end: int, flash: int)
    requires
        flash >= 1,
        earlier <= later,
    ensures
        switches_left(later, end, flash) <= switches_left(earlier, end, flash),
{
    lemma_switches_left_closed(earlier, end, flash);
    lemma_switches_left_closed(later, end, flash);
    if later < end {
        vstd::arithmetic::div_mod::lemma_div_is_ordered(
            end - later - 1,
            end - earlier - 1,
            flash,
        );
    }
}

/// However the host is woken, early, late or more often than asked, a
/// reminder never makes more colour switches than a punctual host sees.
pub proof fn lemma_switches_bounded(start: int, last_switch: int, t: Periods, ticks: Seq<int>)
    requires
        t.valid(),
    ensures
        switches_made(Phase::Active { start, last_switch }, t, ticks) <= switches_left(
            last_switch,
            start + t.duration,
            t.flash,
        ),
    decreases ticks.len(),
{
    let p = Phase::Active { start, last_switch };
    let end = start + t.duration;
    if ticks.len() > 0 {
        let now = ticks[0];
        let rest = ticks.drop_first();
        match transition_at(p, t, now) {
            Transition::Switch => {
                lemma_switches_bounded(start, now, t, rest);
                lemma_switches_left_shrinks(last_switch + t.flash, now, end, t.flash);
            },
            Transition::End => {
                assert(switches_made(phase_after(p, t, now), t, rest) == 0);
            },
            _ => {
                lemma_switches_bounded(start, last_switch, t, rest);
            },
        }
    }
}

/// From idle under a punctual host: the first step comes at
/// `since + interval` and begins the reminder there; nothing begins before
/// that instant; the reminder then switches colour `switches_in_period`
/// times and ends exactly at `since + interval + duration`.
pub proof fn lemma_first_reminder(since: int, index: nat, t: Periods)
    requires
        t.valid(),
        index < PALETTE_LEN,
    ensures
        wake_at(Phase::Idle { since }, t) == since + t.interval,
        forall|now: int|
            since <= now < since + t.interval ==> #[trigger] transition_at(
                Phase::Idle { since },
                t,
                now,
            ) == Transition::Wait,
        punctual(Model { phase: Phase::Idle { since }, index }, t, 1) == (Model {
            phase: Phase::Active { start: since + t.interval, last_switch: since + t.interval },
            index,
        }),
        forall|k: nat|
            k <= switches_in_period(t) ==> #[trigger] punctual(
                Model { phase: Phase::Idle { since }, index },
                t,
                k + 1,
            ) == (Model {
                phase: Phase::Active {
                    start: since + t.interval,
                    last_switch: since + t.interval + k * t.flash,
                },
                index: advanced(index, k),
            }),
        punctual(Model { phase: Phase::Idle { since }, index }, t, switches_in_period(t) + 2) == (
        Model {
            phase: Phase::Idle { since: since + t.interval + t.duration },
            index: advanced(index, switches_in_period(t)),
        }),
{
    let m0 = Model { phase: Phase::Idle { since }, index };
    let begin = since + t.interval;
    let m1 = Model { phase: Phase::Active { start: begin, last_switch: begin }, index };
    assert(model_after(m0, t, wake_at(m0.phase, t)) == m1);
    assert(punctual(m0, t, 1) == punctual(m1, t, 0));
    lemma_switches_left_closed(begin, begin + t.duration, t.flash);
    let n = switches_in_period(t);
    assert(n == switches_left(begin, begin + t.duration, t.flash));
    lemma_punctual_reminder(begin, begin, index, t);
    assert forall|k: nat| k <= n implies #[trigger] punctual(m0, t, k + 1) == (Model {
        phase: Phase::Active { start: begin, last_switch: begin + k * t.flash },
        index: advanced(index, k),
    }) by {
        assert(punctual(m0, t, k + 1) == punctual(m1, t, k));
    }
    assert(punctual(m0, t, n + 2) == punctual(m1, t, n + 1));
}

/// The number of colour switches of one reminder against the quotient of
/// its duration by the flash interval: equal where the flash interval does
/// not divide the duration, one less where it divides a duration that is
/// not zero (the switch that would fall on the reminder's end is not made).
pub proof fn lemma_switch_count(t: Periods)
    requires
        t.valid(),
    ensures
        t.duration % t.flash != 0 || t.duration == 0 ==> switches_in_period(t) == t.duration
            / t.flash,
        t.duration % t.flash == 0 && t.duration > 0 ==> switches_in_period(t) == t.duration
            / t.flash - 1,
{
    let d = t.duration;
    let f = t.flash;
    if d > 0 {
        assert(d % f != 0 ==> (d - 1) / f == d / f) by (nonlinear_arith)
            requires
                d > 0,
                f >= 1,
        ;
        assert(d % f == 0 ==> (d - 1) / f == d / f - 1) by (nonlinear_arith)
            requires
                d > 0,
                f >= 1,
        ;
    } else {
        assert(0int / f == 0) by (nonlinear_arith)
            requires
                f >= 1,
        ;
    }
}

/// A reminder of no length: it begins at `begin` with the next deadline at
/// `begin` itself, and the step that follows, whenever it comes, ends it
/// there and then without a colour switch. Taken at the deadline, that step
/// leaves the scheduler idle since `begin`.
pub proof fn lemma_zero_duration_reminder(p: Phase, index: nat, t: Periods, begin: int, next: int)
    requires
        t.valid(),
        t.duration == 0,
        transition_at(p, t, begin) == Transition::Begin,
        next >= begin,
    ensures
        wake_at(phase_after(p, t, begin), t) == begin,
        transition_at(phase_after(p, t, begin), t, next) == Transition::End,
        model_after(model_after(Model { phase: p, index }, t, begin), t, next) == (Model {
            phase: Phase::Idle { since: next },
            index,
        }),
        model_after(model_after(Model { phase: p, index }, t, begin), t, begin) == (Model {
            phase: Phase::Idle { since: begin },
            index,
        }),
{
}

} // verus!
