use scx_horoscope::dispatch::{
    command_name, dispatch_decision, loop_start, loop_step, positions_due, startup_reports, time_slice_ns,
    trim_nuls, DispatchDecision, Dequeued, LoopAction, LoopEvent, LoopState, StartupReports,
};

#[test]
fn slice_follows_priority() {
    // Full priority: the default slice of 5000 µs.
    assert_eq!(time_slice_ns(1000, 5000, 500, false, false), 5_000_000);
    assert_eq!(time_slice_ns(4000, 5000, 500, false, false), 5_000_000);
    // Priority 550: 55% of the way from 500 µs to 5000 µs.
    assert_eq!(time_slice_ns(550, 5000, 500, false, false), 2_975_000);
    // Low and negative priorities count as 0.1.
    assert_eq!(time_slice_ns(0, 5000, 500, false, false), 950_000);
    assert_eq!(time_slice_ns(-1000, 5000, 500, false, false), 950_000);
}

#[test]
fn retrograde_halves_the_slice() {
    assert_eq!(time_slice_ns(0, 5000, 500, true, false), 475_000);
    assert_eq!(time_slice_ns(0, 5000, 500, true, true), 950_000);
    assert_eq!(time_slice_ns(1000, 5001, 500, true, false), 2_500_500);
}

#[test]
fn slices_grow_with_priority() {
    let mut last = 0;
    for p in (-100..1200).step_by(7) {
        let s = time_slice_ns(p, 5000, 500, false, false);
        assert!(s >= last);
        assert!((500_000..=5_000_000).contains(&s));
        last = s;
    }
}

#[test]
fn refresh_is_due_after_the_interval() {
    assert!(positions_due(100, 40, 60));
    assert!(!positions_due(99, 40, 60));
    assert!(positions_due(5, 5, 0));
}

#[test]
fn dispatch_falls_back_to_any_cpu() {
    const ANY: i32 = -1;
    assert_eq!(
        dispatch_decision(3, ANY, 1000, 5000, 500, false, false),
        DispatchDecision { cpu: 3, slice_ns: 5_000_000 }
    );
    assert_eq!(
        dispatch_decision(-16, ANY, 0, 5000, 500, true, false),
        DispatchDecision { cpu: ANY, slice_ns: 475_000 }
    );
    assert_eq!(
        dispatch_decision(0, ANY, 550, 5000, 500, true, true),
        DispatchDecision { cpu: 0, slice_ns: 2_975_000 }
    );
}

#[test]
fn a_round_of_dispatching() {
    let s = loop_start(1000);
    assert_eq!(s, LoopState { last_update: 1000, prev_ts: 1000 });
    // Not yet due for a refresh.
    let (s, a) = loop_step(s, LoopEvent::RoundBegins { now: 1030 }, 60, true);
    assert_eq!((s, a), (LoopState { last_update: 1000, prev_ts: 1000 }, LoopAction::Dequeue));
    let (s, a) = loop_step(s, LoopEvent::Queue(Dequeued::Task), 60, true);
    assert_eq!(a, LoopAction::DispatchThenDequeue);
    let (s, a) = loop_step(s, LoopEvent::Queue(Dequeued::Empty), 60, true);
    assert_eq!(a, LoopAction::Notify);
    // A second has passed: statistics when verbose.
    let (s, a) = loop_step(s, LoopEvent::RoundEnds { now: 1031 }, 60, true);
    assert_eq!((s, a), (LoopState { last_update: 1000, prev_ts: 1031 }, LoopAction::PrintStats));
    // The same second again: nothing.
    let (s, a) = loop_step(s, LoopEvent::RoundEnds { now: 1031 }, 60, true);
    assert_eq!(a, LoopAction::Idle);
    // Due after the interval: refresh first.
    let (s, a) = loop_step(s, LoopEvent::RoundBegins { now: 1060 }, 60, false);
    assert_eq!((s, a), (LoopState { last_update: 1060, prev_ts: 1031 }, LoopAction::RefreshThenDequeue));
    let (s, a) = loop_step(s, LoopEvent::Queue(Dequeued::Failed(-5)), 60, false);
    assert_eq!(a, LoopAction::ReportThenNotify(-5));
    // Quiet when not verbose.
    let (s, a) = loop_step(s, LoopEvent::RoundEnds { now: 1061 }, 60, false);
    assert_eq!((s.prev_ts, a), (1061, LoopAction::Idle));
}

#[test]
fn startup_reports_follow_the_flags() {
    assert_eq!(startup_reports(true, true), StartupReports { cosmic_weather: true, daily_horoscope: true });
    assert_eq!(startup_reports(true, false), StartupReports { cosmic_weather: true, daily_horoscope: false });
    // The daily horoscope requires -w.
    assert_eq!(startup_reports(false, true), StartupReports { cosmic_weather: false, daily_horoscope: false });
}

#[test]
fn command_names_are_decoded_and_trimmed() {
    let raw: Vec<i8> = b"rustc\0\0\0\0\0\0\0\0\0\0\0".iter().map(|&b| b as i8).collect();
    assert_eq!(command_name(&raw), "rustc");
    let raw: Vec<i8> = "café\0\0".bytes().map(|b| b as i8).collect();
    assert_eq!(command_name(&raw), "café");
    // An invalid byte becomes U+FFFD; an inner NUL stays.
    let raw: Vec<i8> = vec![b'a' as i8, -1, 0, b'b' as i8, 0];
    assert_eq!(command_name(&raw), "a\u{fffd}\0b");
    assert_eq!(command_name(&[]), "");
    assert_eq!(trim_nuls("\0\0"), "");
    assert_eq!(trim_nuls("x\0y"), "x\0y");
}
