use analog_desktop::debounce::{CycleStep, DebouncedWriter, PendingUpdate, DEBOUNCE_MILLIS};
use analog_desktop::window_state::WindowState;

/// Runs a flush cycle to its end: wakes at `first` and then after every quiet
/// period, writes to `disk` what it is told to, and gives back the times of
/// the writes.
fn run_cycle(writer: &mut DebouncedWriter, first: u64, disk: &mut Vec<WindowState>) -> Vec<u64> {
    let mut times = Vec::new();
    let mut now = first;
    loop {
        match writer.wake(now) {
            CycleStep::Persist(state) => {
                disk.push(state);
                times.push(now);
                if writer.persisted() == CycleStep::Stop {
                    return times;
                }
            }
            CycleStep::Sleep => {}
            CycleStep::Stop => return times,
        }
        now += writer.quiet_period();
    }
}

#[test]
fn the_recommended_quiet_period_is_half_a_second() {
    assert_eq!(DEBOUNCE_MILLIS, 500);
}

#[test]
fn a_new_writer_is_idle() {
    let writer = DebouncedWriter::new(DEBOUNCE_MILLIS);
    assert_eq!(writer.quiet_period(), 500);
    assert_eq!(writer.pending(), None);
    assert!(!writer.is_running());
}

#[test]
fn the_first_update_starts_a_cycle_and_later_ones_do_not() {
    let mut writer = DebouncedWriter::new(500);
    assert!(writer.record(WindowState::new(800, 600, 10, 20), 0));
    assert!(writer.is_running());
    assert!(!writer.record(WindowState::new(801, 600, 10, 20), 1));
    assert!(!writer.record(WindowState::new(802, 600, 10, 20), 2));
    assert_eq!(
        writer.pending(),
        Some(PendingUpdate { state: WindowState::new(802, 600, 10, 20), recorded_at: 2 })
    );
}

#[test]
fn a_burst_is_written_once_with_its_last_value() {
    let mut writer = DebouncedWriter::new(500);
    let mut disk = Vec::new();
    assert!(writer.record(WindowState::new(800, 600, 10, 20), 0));
    assert!(!writer.record(WindowState::new(1024, 768, 50, 60), 100));
    let times = run_cycle(&mut writer, 500, &mut disk);
    assert_eq!(disk, vec![WindowState::new(1024, 768, 50, 60)]);
    assert_eq!(times, vec![1000]);
    assert_eq!(writer.pending(), None);
    assert!(!writer.is_running());
}

#[test]
fn two_updates_at_once_leave_the_second_on_disk() {
    let mut writer = DebouncedWriter::new(500);
    let mut disk = Vec::new();
    assert!(writer.record(WindowState::new(800, 600, 10, 20), 0));
    assert!(!writer.record(WindowState::new(1024, 768, 50, 60), 0));
    let times = run_cycle(&mut writer, 500, &mut disk);
    assert_eq!(times, vec![500]);
    assert_eq!(disk, vec![WindowState::new(1024, 768, 50, 60)]);
    assert!(!writer.is_running());
}

#[test]
fn two_updates_within_a_tenth_of_a_second_leave_the_second_on_disk() {
    let mut writer = DebouncedWriter::new(500);
    let mut disk = Vec::new();
    assert!(writer.record(WindowState::new(800, 600, 10, 20), 0));
    assert!(!writer.record(WindowState::new(1024, 768, 50, 60), 99));
    // At the first wake the second update is 401 ms old: the cycle waits on.
    assert_eq!(writer.wake(500), CycleStep::Sleep);
    assert!(disk.is_empty());
    let times = run_cycle(&mut writer, 1000, &mut disk);
    assert_eq!(times, vec![1000]);
    assert_eq!(disk, vec![WindowState::new(1024, 768, 50, 60)]);
    assert_eq!(writer.pending(), None);
    assert!(!writer.is_running());
}

#[test]
fn a_long_burst_is_written_once() {
    let mut writer = DebouncedWriter::new(500);
    let mut disk = Vec::new();
    let mut written_at = Vec::new();
    let mut next_wake = 500;
    let mut time = 0;
    for i in 0..40u32 {
        time = u64::from(i) * 125;
        while next_wake <= time {
            match writer.wake(next_wake) {
                CycleStep::Persist(state) => {
                    disk.push(state);
                    written_at.push(next_wake);
                    writer.persisted();
                }
                _ => {}
            }
            next_wake += 500;
        }
        writer.record(WindowState::new(800 + i, 600, 0, 0), time);
    }
    assert!(disk.is_empty());
    let times = run_cycle(&mut writer, next_wake, &mut disk);
    assert_eq!(disk, vec![WindowState::new(839, 600, 0, 0)]);
    assert_eq!(times.len(), 1);
    assert!(times[0] >= time + 500);
}

#[test]
fn spaced_updates_are_each_written() {
    let mut writer = DebouncedWriter::new(500);
    let mut disk = Vec::new();
    let mut times = Vec::new();
    for i in 0..5u32 {
        let at = u64::from(i) * 600;
        assert!(writer.record(WindowState::new(100 + i, 200, 3, 4), at));
        times.extend(run_cycle(&mut writer, at + 500, &mut disk));
        assert!(!writer.is_running());
    }
    let expected: Vec<WindowState> =
        (0..5u32).map(|i| WindowState::new(100 + i, 200, 3, 4)).collect();
    assert_eq!(disk, expected);
    assert_eq!(times, vec![500, 1100, 1700, 2300, 2900]);
}

#[test]
fn an_update_of_exactly_the_quiet_period_is_due() {
    let mut writer = DebouncedWriter::new(500);
    writer.record(WindowState::new(1, 2, 3, 4), 1000);
    assert_eq!(writer.wake(1499), CycleStep::Sleep);
    assert_eq!(
        writer.pending(),
        Some(PendingUpdate { state: WindowState::new(1, 2, 3, 4), recorded_at: 1000 })
    );
    assert!(writer.is_running());
    assert_eq!(writer.wake(1500), CycleStep::Persist(WindowState::new(1, 2, 3, 4)));
    assert_eq!(writer.pending(), None);
    assert!(writer.is_running());
}

#[test]
fn a_young_update_is_put_back_and_the_cycle_goes_on() {
    let mut writer = DebouncedWriter::new(500);
    writer.record(WindowState::new(1, 2, 3, 4), 0);
    writer.record(WindowState::new(5, 6, 7, 8), 400);
    assert_eq!(writer.wake(500), CycleStep::Sleep);
    assert!(writer.is_running());
    assert_eq!(writer.pending().unwrap().state, WindowState::new(5, 6, 7, 8));
    assert_eq!(writer.wake(1000), CycleStep::Persist(WindowState::new(5, 6, 7, 8)));
}

#[test]
fn a_cycle_with_nothing_pending_stops() {
    let mut writer = DebouncedWriter::new(500);
    assert_eq!(writer.wake(10), CycleStep::Stop);
    assert!(!writer.is_running());
    writer.record(WindowState::new(1, 2, 3, 4), 20);
    assert_eq!(writer.wake(520), CycleStep::Persist(WindowState::new(1, 2, 3, 4)));
    assert_eq!(writer.wake(1020), CycleStep::Stop);
    assert!(!writer.is_running());
}

#[test]
fn an_update_during_a_write_keeps_the_cycle_alive() {
    let mut writer = DebouncedWriter::new(500);
    assert!(writer.record(WindowState::new(1, 2, 3, 4), 0));
    assert_eq!(writer.wake(500), CycleStep::Persist(WindowState::new(1, 2, 3, 4)));
    assert!(!writer.record(WindowState::new(5, 6, 7, 8), 501));
    assert_eq!(writer.persisted(), CycleStep::Sleep);
    assert!(writer.is_running());
    assert_eq!(writer.wake(1000), CycleStep::Sleep);
    assert_eq!(writer.wake(1500), CycleStep::Persist(WindowState::new(5, 6, 7, 8)));
    assert_eq!(writer.persisted(), CycleStep::Stop);
    assert!(!writer.is_running());
}

#[test]
fn a_failed_write_is_reported_like_any_other() {
    let mut writer = DebouncedWriter::new(500);
    writer.record(WindowState::new(1, 2, 3, 4), 0);
    assert_eq!(writer.wake(700), CycleStep::Persist(WindowState::new(1, 2, 3, 4)));
    assert_eq!(writer.persisted(), CycleStep::Stop);
    assert_eq!(writer.pending(), None);
    assert!(writer.record(WindowState::new(1, 2, 3, 4), 800));
}

#[test]
fn a_clock_that_went_back_makes_no_update_due() {
    let mut writer = DebouncedWriter::new(500);
    writer.record(WindowState::new(1, 2, 3, 4), 1000);
    assert_eq!(writer.wake(200), CycleStep::Sleep);
    assert_eq!(writer.pending().unwrap().recorded_at, 1000);
}

#[test]
fn a_quiet_period_of_zero_writes_at_the_first_wake() {
    let mut writer = DebouncedWriter::new(0);
    writer.record(WindowState::new(1, 2, 3, 4), 77);
    assert_eq!(writer.wake(77), CycleStep::Persist(WindowState::new(1, 2, 3, 4)));
    assert_eq!(writer.persisted(), CycleStep::Stop);
}

#[test]
fn times_near_the_end_of_the_clock_do_not_overflow() {
    let mut writer = DebouncedWriter::new(u64::MAX);
    writer.record(WindowState::new(1, 2, 3, 4), 0);
    assert_eq!(writer.wake(u64::MAX - 1), CycleStep::Sleep);
    assert_eq!(writer.wake(u64::MAX), CycleStep::Persist(WindowState::new(1, 2, 3, 4)));
    let mut late = DebouncedWriter::new(500);
    late.record(WindowState::new(1, 2, 3, 4), u64::MAX);
    assert_eq!(late.wake(u64::MAX), CycleStep::Sleep);
}

#[test]
fn record_then_immediate_replacement_within_the_quiet_period() {
    let mut writer = DebouncedWriter::new(500);
    let mut disk = Vec::new();
    writer.record(WindowState::new(800, 600, 10, 20), 0);
    writer.record(WindowState::new(1024, 768, 50, 60), 50);
    let mut now = 500;
    while now <= 600 {
        if let CycleStep::Persist(state) = writer.wake(now) {
            disk.push(state);
            writer.persisted();
        }
        now += 50;
    }
    assert_eq!(disk, vec![WindowState::new(1024, 768, 50, 60)]);
}

#[test]
fn a_flush_beside_the_cycle_leaves_one_value_on_disk() {
    let mut writer = DebouncedWriter::new(500);
    let mut disk = Vec::new();
    assert!(writer.record(WindowState::new(800, 600, 10, 20), 0));
    let times = run_cycle(&mut writer, 500, &mut disk);
    assert_eq!(times, vec![500]);
    assert_eq!(disk.last(), Some(&WindowState::new(800, 600, 10, 20)));
    assert!(!writer.is_running());

    let closing = WindowState::new(900, 700, 15, 25);
    assert!(writer.record(closing, 600));
    let before = writer.pending();
    // The flush on close writes at once and leaves the writer alone.
    disk.push(closing);
    assert_eq!(writer.pending(), before);
    assert!(writer.is_running());
    assert_eq!(disk.last(), Some(&closing));

    // Should the cycle still get to run, it writes the same value again.
    let times = run_cycle(&mut writer, 1100, &mut disk);
    assert_eq!(times, vec![1100]);
    assert_eq!(disk, vec![WindowState::new(800, 600, 10, 20), closing, closing]);
    assert_eq!(disk.last(), Some(&closing));
}

#[test]
fn cycle_writes_are_a_quiet_period_apart() {
    let mut writer = DebouncedWriter::new(500);
    let mut written_at: Vec<u64> = Vec::new();
    let mut cycle_wakes_at: Option<u64> = None;
    let mut seed: u64 = 12345;
    let mut now: u64 = 0;
    for step in 0..2000u32 {
        seed = seed.wrapping_mul(6364136223846793005).wrapping_add(1442695040888963407);
        now += (seed >> 33) % 400;
        if let Some(wake) = cycle_wakes_at {
            if wake <= now {
                match writer.wake(wake) {
                    CycleStep::Persist(_) => {
                        written_at.push(wake);
                        cycle_wakes_at = match writer.persisted() {
                            CycleStep::Stop => None,
                            _ => Some(wake + 500),
                        };
                    }
                    CycleStep::Sleep => cycle_wakes_at = Some(wake + 500),
                    CycleStep::Stop => cycle_wakes_at = None,
                }
            }
        }
        if (seed >> 20) % 3 != 0 {
            if writer.record(WindowState::new(step, 1, 2, 3), now) {
                assert!(cycle_wakes_at.is_none());
                cycle_wakes_at = Some(now + 500);
            }
        }
        assert_eq!(writer.is_running(), cycle_wakes_at.is_some());
        assert!(writer.pending().is_none() || writer.is_running());
    }
    assert!(written_at.len() > 10);
    for pair in written_at.windows(2) {
        assert!(pair[1] >= pair[0] + 500);
    }
}
