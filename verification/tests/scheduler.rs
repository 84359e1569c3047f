use eye_care::palette::palette_entry;
use eye_care::scheduler::{
    classify, commands, next_deadline, step, Command, ReminderState, Scheduler, Transition,
};
use eye_care::timing::ReminderTiming;

fn timing(interval: u64, duration: u64, flash_interval: u64) -> ReminderTiming {
    ReminderTiming { interval, duration, flash_interval }
}

fn idle(last_reminder_end: u64) -> ReminderState {
    ReminderState::Idle { last_reminder_end }
}

fn active(active_start: u64, last_switch: u64) -> ReminderState {
    ReminderState::Active { active_start, last_switch }
}

/// Ticks the scheduler at each deadline it returns until it is idle again,
/// and returns the instants of the colour switches and the instant of the end.
fn run_reminder(scheduler: &mut Scheduler, begin: u64) -> (Vec<u64>, u64) {
    let first = scheduler.tick(begin);
    assert_eq!(first.transition, Transition::Begin);
    let mut deadline = first.deadline;
    let mut switches = Vec::new();
    loop {
        let now = u64::try_from(deadline).unwrap();
        let tick = scheduler.tick(now);
        match tick.transition {
            Transition::Switch => switches.push(now),
            Transition::End => return (switches, now),
            other => panic!("unexpected transition {:?} at {}", other, now),
        }
        assert!(tick.deadline > deadline);
        deadline = tick.deadline;
    }
}

#[test]
fn two_second_interval_one_second_reminder() {
    let mut s = Scheduler::new(timing(2, 1, 500), 0);
    assert_eq!(s.state, idle(0));
    assert_eq!(s.deadline(), 2000);
    assert!(!s.is_active());

    let t = s.tick(1999);
    assert_eq!(t.transition, Transition::Wait);
    assert!(t.commands.is_empty());
    assert_eq!(t.deadline, 2000);
    assert_eq!(s.state, idle(0));

    let t = s.tick(2000);
    assert_eq!(t.transition, Transition::Begin);
    assert_eq!(
        t.commands,
        vec![
            Command::SetAlwaysOnTop(true),
            Command::SetFullscreen(true),
            Command::Show,
            Command::RequestRedraw,
        ]
    );
    assert_eq!(s.state, active(2000, 2000));
    assert!(s.is_active());
    assert_eq!(t.deadline, 2500);
    assert_eq!(s.colors.index(), 0);

    let t = s.tick(2500);
    assert_eq!(t.transition, Transition::Switch);
    assert_eq!(t.commands, vec![Command::RequestRedraw]);
    assert_eq!(s.state, active(2000, 2500));
    assert_eq!(s.colors.index(), 1);
    assert_eq!(t.deadline, 3000);

    let t = s.tick(3000);
    assert_eq!(t.transition, Transition::End);
    assert_eq!(
        t.commands,
        vec![Command::Hide, Command::SetFullscreen(false), Command::SetAlwaysOnTop(false)]
    );
    assert_eq!(s.state, idle(3000));
    assert_eq!(s.colors.index(), 1);
    assert_eq!(t.deadline, 5000);

    let t = s.tick(4999);
    assert_eq!(t.transition, Transition::Wait);
    let t = s.tick(5000);
    assert_eq!(t.transition, Transition::Begin);
    assert_eq!(s.state, active(5000, 5000));
    assert_eq!(s.colors.index(), 1);
    assert_eq!(t.deadline, 5500);
}

#[test]
fn first_reminder_begins_after_the_interval_and_lasts_the_duration() {
    let mut s = Scheduler::new(timing(1200, 60, 1000), 0);
    assert_eq!(s.deadline(), 1_200_000);
    let (switches, end) = run_reminder(&mut s, 1_200_000);
    assert_eq!(s.state, idle(1_260_000));
    assert_eq!(end, 1_260_000);
    assert_eq!(switches.len(), 59);
    assert_eq!(switches[0], 1_201_000);
    assert_eq!(switches[58], 1_259_000);
    assert_eq!(s.deadline(), 2_460_000);
}

#[test]
fn switch_count_is_the_quotient_where_the_flash_does_not_divide() {
    let mut s = Scheduler::new(timing(1, 1, 300), 0);
    let (switches, end) = run_reminder(&mut s, 1000);
    assert_eq!(switches, vec![1300, 1600, 1900]);
    assert_eq!(end, 2000);
    assert_eq!(s.colors.index(), 3);
}

#[test]
fn no_switch_falls_on_the_end_of_a_reminder() {
    let mut s = Scheduler::new(timing(1, 1, 250), 0);
    let (switches, end) = run_reminder(&mut s, 1000);
    assert_eq!(switches, vec![1250, 1500, 1750]);
    assert_eq!(end, 2000);
}

#[test]
fn colours_follow_the_palette_and_wrap() {
    let mut s = Scheduler::new(timing(1, 2, 100), 0);
    let first = s.tick(1000);
    assert_eq!(first.transition, Transition::Begin);
    assert_eq!(s.current_color(), palette_entry(0));
    for k in 1..=19u64 {
        let t = s.tick(1000 + k * 100);
        assert_eq!(t.transition, Transition::Switch);
        assert_eq!(s.colors.index(), (k % 8) as usize);
        assert_eq!(s.current_color(), palette_entry((k % 8) as usize));
    }
    let t = s.tick(3000);
    assert_eq!(t.transition, Transition::End);
    assert_eq!(s.colors.index(), 3);
}

#[test]
fn colour_index_survives_the_idle_time() {
    let mut s = Scheduler::new(timing(1, 1, 400), 0);
    let (switches, _) = run_reminder(&mut s, 1000);
    assert_eq!(switches.len(), 2);
    assert_eq!(s.colors.index(), 2);
    let (switches, end) = run_reminder(&mut s, 3000);
    assert_eq!(switches, vec![3400, 3800]);
    assert_eq!(end, 4000);
    assert_eq!(s.colors.index(), 4);
}

#[test]
fn idle_deadline_is_the_end_of_the_interval() {
    assert_eq!(next_deadline(idle(0), timing(2, 1, 500)), 2000);
    assert_eq!(next_deadline(idle(3000), timing(2, 1, 500)), 5000);
    assert_eq!(next_deadline(idle(77), timing(0, 1, 500)), 77);
    let s = step(idle(3000), timing(2, 1, 500), 3500);
    assert_eq!(s.transition, Transition::Wait);
    assert_eq!(s.state, idle(3000));
    assert_eq!(s.deadline, 5000);
    assert!(s.commands.is_empty());
}

#[test]
fn active_deadline_is_the_earlier_of_switch_and_end() {
    assert_eq!(next_deadline(active(2000, 2000), timing(2, 1, 500)), 2500);
    assert_eq!(next_deadline(active(2000, 2500), timing(2, 1, 500)), 3000);
    assert_eq!(next_deadline(active(2000, 2800), timing(2, 1, 500)), 3000);
    assert_eq!(next_deadline(active(2000, 2000), timing(2, 1, 5000)), 3000);
    let s = step(active(2000, 2000), timing(2, 1, 500), 2100);
    assert_eq!(s.transition, Transition::Wait);
    assert_eq!(s.state, active(2000, 2000));
    assert_eq!(s.deadline, 2500);
    assert!(s.commands.is_empty());
}

#[test]
fn deadline_is_never_before_the_tick() {
    let timings = [timing(2, 1, 500), timing(0, 0, 0), timing(0, 3, 7), timing(5, 0, 1)];
    let states = [idle(0), idle(900), active(100, 100), active(100, 1050), active(1000, 1000)];
    for t in timings {
        for s in states {
            for now in [1000u64, 1001, 1100, 2000, 5000, 6001, 100_000] {
                let out = step(s, t, now);
                assert!(out.deadline >= u128::from(now));
                if out.transition == Transition::Wait || out.transition == Transition::Switch {
                    assert!(out.deadline > u128::from(now));
                }
            }
        }
    }
}

#[test]
fn late_tick_moves_the_switch_to_the_tick() {
    let s = step(active(2000, 2000), timing(2, 1, 300), 2450);
    assert_eq!(s.transition, Transition::Switch);
    assert_eq!(s.state, active(2000, 2450));
    assert_eq!(s.deadline, 2750);
}

#[test]
fn end_goes_before_a_switch_that_is_due_with_it() {
    let mut s = Scheduler::new(timing(2, 1, 500), 0);
    s.tick(2000);
    let t = s.tick(3200);
    assert_eq!(t.transition, Transition::End);
    assert_eq!(s.state, idle(3200));
    assert_eq!(s.colors.index(), 0);
    assert_eq!(t.deadline, 5200);
}

#[test]
fn zero_duration_reminder_ends_on_the_next_tick() {
    let mut s = Scheduler::new(timing(2, 0, 500), 0);
    let t = s.tick(2000);
    assert_eq!(t.transition, Transition::Begin);
    assert_eq!(s.state, active(2000, 2000));
    assert_eq!(t.deadline, 2000);
    let t = s.tick(2000);
    assert_eq!(t.transition, Transition::End);
    assert_eq!(s.state, idle(2000));
    assert_eq!(s.colors.index(), 0);
    assert_eq!(t.deadline, 4000);
}

#[test]
fn zero_flash_interval_switches_every_millisecond() {
    let mut s = Scheduler::new(timing(1, 1, 0), 0);
    let t = s.tick(1000);
    assert_eq!(t.deadline, 1001);
    let t = s.tick(1000);
    assert_eq!(t.transition, Transition::Wait);
    assert_eq!(t.deadline, 1001);
    let t = s.tick(1001);
    assert_eq!(t.transition, Transition::Switch);
    assert_eq!(t.deadline, 1002);
    assert_eq!(s.colors.index(), 1);
}

#[test]
fn zero_interval_begins_at_once() {
    let mut s = Scheduler::new(timing(0, 1, 500), 40);
    assert_eq!(s.deadline(), 40);
    let t = s.tick(40);
    assert_eq!(t.transition, Transition::Begin);
    assert_eq!(t.deadline, 540);
    s.tick(540);
    let t = s.tick(1040);
    assert_eq!(t.transition, Transition::End);
    assert_eq!(t.deadline, 1040);
    let t = s.tick(1040);
    assert_eq!(t.transition, Transition::Begin);
    assert_eq!(s.state, active(1040, 1040));
}

#[test]
fn clock_reading_before_the_last_end_waits() {
    assert_eq!(classify(idle(5000), timing(2, 1, 500), 100), Transition::Wait);
    assert_eq!(classify(idle(5000), timing(0, 1, 500), 100), Transition::Begin);
}

#[test]
fn classify_at_the_boundaries() {
    let t = timing(2, 1, 500);
    assert_eq!(classify(idle(10), t, 2009), Transition::Wait);
    assert_eq!(classify(idle(10), t, 2010), Transition::Begin);
    assert_eq!(classify(active(2010, 2010), t, 2509), Transition::Wait);
    assert_eq!(classify(active(2010, 2010), t, 2510), Transition::Switch);
    assert_eq!(classify(active(2010, 2510), t, 3009), Transition::Wait);
    assert_eq!(classify(active(2010, 2510), t, 3010), Transition::End);
}

#[test]
fn commands_of_each_transition() {
    assert_eq!(commands(Transition::Wait), Vec::<Command>::new());
    assert_eq!(
        commands(Transition::Begin),
        vec![
            Command::SetAlwaysOnTop(true),
            Command::SetFullscreen(true),
            Command::Show,
            Command::RequestRedraw,
        ]
    );
    assert_eq!(commands(Transition::Switch), vec![Command::RequestRedraw]);
    assert_eq!(
        commands(Transition::End),
        vec![Command::Hide, Command::SetFullscreen(false), Command::SetAlwaysOnTop(false)]
    );
}

#[test]
fn deadlines_beyond_sixty_four_bits_are_exact() {
    let t = timing(u64::MAX, u64::MAX, u64::MAX);
    assert_eq!(next_deadline(idle(u64::MAX), t), 18446744073709551615000u128 + 18446744073709551615u128);
    assert_eq!(classify(idle(0), t, u64::MAX), Transition::Wait);
    let s = step(active(u64::MAX, u64::MAX), t, u64::MAX);
    assert_eq!(s.transition, Transition::Wait);
    assert_eq!(s.deadline, 2 * 18446744073709551615u128);
}

#[test]
fn new_scheduler_is_idle_on_the_first_colour() {
    let s = Scheduler::new(timing(2, 1, 500), 123);
    assert_eq!(s.state, idle(123));
    assert_eq!(s.timing, timing(2, 1, 500));
    assert_eq!(s.colors.index(), 0);
    assert_eq!(s.current_color(), palette_entry(0));
    assert_eq!(s.deadline(), 2123);
}

#[test]
fn a_late_host_never_sees_more_switches_than_a_punctual_one() {
    let mut punctual = Scheduler::new(timing(1, 1, 300), 0);
    let (on_time, _) = run_reminder(&mut punctual, 1000);
    assert_eq!(on_time.len(), 3);

    let mut late = Scheduler::new(timing(1, 1, 300), 0);
    assert_eq!(late.tick(1000).transition, Transition::Begin);
    let mut seen = 0;
    for now in [1100u64, 1450, 1460, 1700, 1800, 1999, 2050] {
        match late.tick(now).transition {
            Transition::Switch => seen += 1,
            Transition::End => assert_eq!(now, 2050),
            Transition::Wait => {}
            Transition::Begin => panic!("a reminder began inside a reminder"),
        }
    }
    assert_eq!(seen, 2);
    assert_eq!(late.state, idle(2050));
    assert_eq!(late.colors.index(), 2);
}
