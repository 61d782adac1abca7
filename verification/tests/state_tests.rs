use vad_recorder::state::{Action, Phase, StartError, SystemState};

fn fresh(debounce_ms: u64) -> SystemState {
    SystemState::new("models".to_string(), "data".to_string(), "ko".to_string(), debounce_ms)
}

fn recording(debounce_ms: u64, name: &str) -> SystemState {
    let mut s = fresh(debounce_ms);
    assert_eq!(s.poll(1, 0), Action::StartCapture);
    assert_eq!(s.begin_recording(name.to_string()), Ok(()));
    s
}

#[test]
fn initial_state_is_idle() {
    let s = fresh(1000);
    assert_eq!(s.phase(), Phase::Idle);
    assert!(!s.is_recording());
    assert_eq!(s.current_filename(), None);
    assert_eq!(s.stop_timer_start(), None);
    assert_eq!(s.snapshot(), Vec::<String>::new());
    assert_eq!(s.modeldir, "models");
    assert_eq!(s.datadir, "data");
    assert_eq!(s.language, "ko");
}

#[test]
fn idle_and_inactive_is_a_no_op() {
    let mut s = fresh(1000);
    assert_eq!(s.poll(0, 5), Action::Nothing);
    assert_eq!(s.phase(), Phase::Idle);
}

#[test]
fn idle_and_active_asks_for_a_start_until_one_is_confirmed() {
    let mut s = fresh(1000);
    assert_eq!(s.poll(1, 0), Action::StartCapture);
    assert_eq!(s.phase(), Phase::Idle);
    assert_eq!(s.poll(7, 100), Action::StartCapture);
    assert_eq!(s.begin_recording("a.raw".to_string()), Ok(()));
    assert_eq!(s.phase(), Phase::Recording);
    assert!(s.is_recording());
    assert_eq!(s.current_filename(), Some("a.raw".to_string()));
    assert_eq!(s.poll(1, 200), Action::Nothing);
    assert_eq!(s.phase(), Phase::Recording);
}

#[test]
fn any_non_zero_status_is_active() {
    for status in [1u8, 2, 127, 128, 255] {
        let mut s = fresh(1000);
        assert_eq!(s.poll(status, 0), Action::StartCapture);
    }
}

#[test]
fn first_inactive_reading_sets_the_stop_timer() {
    let mut s = recording(1000, "a.raw");
    assert_eq!(s.poll(0, 300), Action::DebounceArmed);
    assert_eq!(s.phase(), Phase::StopPending);
    assert_eq!(s.stop_timer_start(), Some(300));
    assert_eq!(s.poll(0, 400), Action::Nothing);
    assert_eq!(s.stop_timer_start(), Some(300));
}

#[test]
fn active_reading_cancels_the_pending_stop() {
    let mut s = recording(1000, "a.raw");
    s.poll(0, 300);
    s.poll(0, 1299);
    assert_eq!(s.poll(1, 1299), Action::DebounceCancelled);
    assert_eq!(s.phase(), Phase::Recording);
    assert_eq!(s.stop_timer_start(), None);
    assert_eq!(s.current_filename(), Some("a.raw".to_string()));
    assert_eq!(s.snapshot(), Vec::<String>::new());
    assert_eq!(s.poll(0, 1400), Action::DebounceArmed);
    assert_eq!(s.stop_timer_start(), Some(1400));
}

#[test]
fn active_reading_cancels_even_after_the_threshold() {
    let mut s = recording(1000, "a.raw");
    s.poll(0, 300);
    assert_eq!(s.poll(1, 5000), Action::DebounceCancelled);
    assert_eq!(s.phase(), Phase::Recording);
}

#[test]
fn stop_fires_at_the_threshold_and_not_before() {
    let mut s = recording(1000, "a.raw");
    assert_eq!(s.poll(0, 300), Action::DebounceArmed);
    assert_eq!(s.poll(0, 1299), Action::Nothing);
    assert_eq!(s.poll(0, 1300), Action::StopCapture);
    assert_eq!(s.phase(), Phase::StopPending);
    assert_eq!(s.seal(), Some("a.raw".to_string()));
    assert_eq!(s.phase(), Phase::Idle);
    assert_eq!(s.current_filename(), None);
    assert_eq!(s.stop_timer_start(), None);
    assert_eq!(s.snapshot(), vec!["a.raw".to_string()]);
    assert_eq!(s.poll(0, 1400), Action::Nothing);
    assert_eq!(s.snapshot(), vec!["a.raw".to_string()]);
}

#[test]
fn zero_debounce_stops_at_the_second_inactive_reading() {
    let mut s = recording(0, "a.raw");
    assert_eq!(s.poll(0, 10), Action::DebounceArmed);
    assert_eq!(s.poll(0, 10), Action::StopCapture);
}

#[test]
fn clock_that_runs_backwards_counts_as_no_time_passed() {
    let mut s = recording(1000, "a.raw");
    assert_eq!(s.poll(0, 5000), Action::DebounceArmed);
    assert_eq!(s.poll(0, 100), Action::Nothing);
    assert_eq!(s.poll(0, 5999), Action::Nothing);
    assert_eq!(s.poll(0, 6000), Action::StopCapture);
}

#[test]
fn begin_is_refused_while_recording() {
    let mut s = recording(1000, "a.raw");
    assert_eq!(s.begin_recording("b.raw".to_string()), Err(StartError::AlreadyRecording));
    assert_eq!(s.current_filename(), Some("a.raw".to_string()));
    assert_eq!(s.begin_recording("a.raw".to_string()), Err(StartError::AlreadyRecording));
}

#[test]
fn begin_is_refused_for_a_pending_name() {
    let mut s = recording(1000, "a.raw");
    assert_eq!(s.seal(), Some("a.raw".to_string()));
    assert_eq!(s.begin_recording("a.raw".to_string()), Err(StartError::DuplicateName));
    assert_eq!(s.phase(), Phase::Idle);
    assert_eq!(s.current_filename(), None);
    assert_eq!(s.poll(1, 10), Action::StartCapture);
    assert_eq!(s.begin_recording("b.raw".to_string()), Ok(()));
    assert_eq!(s.retire(1), 1);
    assert_eq!(s.seal(), Some("b.raw".to_string()));
    assert_eq!(s.begin_recording("a.raw".to_string()), Ok(()));
}

#[test]
fn seal_while_idle_changes_nothing() {
    let mut s = fresh(1000);
    assert_eq!(s.seal(), None);
    assert_eq!(s.phase(), Phase::Idle);
    assert_eq!(s.snapshot(), Vec::<String>::new());
}

#[test]
fn seal_clears_a_pending_stop() {
    let mut s = recording(1000, "a.raw");
    s.poll(0, 10);
    assert_eq!(s.seal(), Some("a.raw".to_string()));
    assert_eq!(s.stop_timer_start(), None);
    assert_eq!(s.phase(), Phase::Idle);
}

#[test]
fn segments_queue_in_stop_order() {
    let mut s = fresh(100);
    for (i, name) in ["a.raw", "b.raw", "c.raw"].iter().enumerate() {
        let t = i as u64 * 1000;
        assert_eq!(s.poll(1, t), Action::StartCapture);
        assert_eq!(s.begin_recording(name.to_string()), Ok(()));
        assert_eq!(s.poll(0, t + 10), Action::DebounceArmed);
        assert_eq!(s.poll(0, t + 110), Action::StopCapture);
        assert_eq!(s.seal(), Some(name.to_string()));
    }
    assert_eq!(
        s.snapshot(),
        vec!["a.raw".to_string(), "b.raw".to_string(), "c.raw".to_string()]
    );
}

#[test]
fn retire_removes_the_snapshot_and_keeps_later_segments() {
    let mut s = fresh(100);
    for name in ["a.raw", "b.raw"] {
        s.begin_recording(name.to_string()).unwrap();
        s.seal();
    }
    let snapshot = s.snapshot();
    assert_eq!(snapshot.len(), 2);
    for name in ["c.raw", "d.raw", "e.raw"] {
        s.begin_recording(name.to_string()).unwrap();
        s.seal();
    }
    s.begin_recording("f.raw".to_string()).unwrap();
    assert_eq!(s.retire(snapshot.len()), 2);
    assert_eq!(
        s.snapshot(),
        vec!["c.raw".to_string(), "d.raw".to_string(), "e.raw".to_string()]
    );
    assert_eq!(s.current_filename(), Some("f.raw".to_string()));
    assert_eq!(s.retire(10), 3);
    assert_eq!(s.snapshot(), Vec::<String>::new());
    assert!(s.is_recording());
}

#[test]
fn at_most_one_session_is_alive_over_a_long_run() {
    let mut s = fresh(300);
    let mut alive = 0i32;
    let mut counter = 0u32;
    let mut x: u32 = 12345;
    for step in 0..5000u64 {
        x = x.wrapping_mul(1664525).wrapping_add(1013904223);
        let status = if (x >> 16) % 3 == 0 { 0u8 } else { 1u8 };
        match s.poll(status, step * 100) {
            Action::StartCapture => {
                counter += 1;
                if s.begin_recording(format!("{}.raw", counter)).is_ok() {
                    alive += 1;
                }
            }
            Action::StopCapture => {
                if s.seal().is_some() {
                    alive -= 1;
                }
            }
            _ => {}
        }
        assert!(alive == 0 || alive == 1);
        assert_eq!(alive == 1, s.is_recording());
        assert_eq!(s.is_recording(), s.current_filename().is_some());
        if s.stop_timer_start().is_some() {
            assert!(s.is_recording());
        }
    }
    let pending = s.snapshot();
    let mut sorted = pending.clone();
    sorted.sort();
    sorted.dedup();
    assert_eq!(sorted.len(), pending.len());
}

#[test]
fn example_scenario() {
    // readings every 100 ms, debounce 1000 ms: 1,1,0,0,0,1, then silence
    let mut s = fresh(1000);
    let mut starts = 0;
    let mut stops = 0;
    let mut readings: Vec<u8> = vec![1, 1, 0, 0, 0, 1];
    readings.extend(std::iter::repeat(0).take(20));
    let mut stopped_at = None;
    for (i, status) in readings.iter().enumerate() {
        let now = i as u64 * 100;
        match s.poll(*status, now) {
            Action::StartCapture => {
                starts += 1;
                assert_eq!(now, 0);
                assert_eq!(s.begin_recording("segment.raw".to_string()), Ok(()));
            }
            Action::StopCapture => {
                stops += 1;
                stopped_at = Some(now);
                assert_eq!(s.seal(), Some("segment.raw".to_string()));
            }
            _ => {}
        }
        if now <= 500 {
            assert!(s.is_recording());
            assert_eq!(s.snapshot().len(), 0);
        }
        if now == 400 {
            assert_eq!(s.stop_timer_start(), Some(200));
        }
        if now == 500 {
            assert_eq!(s.stop_timer_start(), None);
        }
    }
    assert_eq!(starts, 1);
    assert_eq!(stops, 1);
    // silence from 600 ms on: the stop fires once 1000 ms have passed since
    assert_eq!(stopped_at, Some(1600));
    assert_eq!(s.phase(), Phase::Idle);
    assert_eq!(s.snapshot(), vec!["segment.raw".to_string()]);
}
