use tick_engine::engine::{Activation, ActivationHealth, CounterTimer};
use tick_engine::fault::SinkFault;
use tick_engine::mode::Mode;

#[test]
fn fresh_instance_is_idle() {
    let t = CounterTimer::new("demo".to_string());
    assert_eq!(t.name, "demo");
    assert_eq!(t.mode, Mode::Counter);
    assert_eq!(t.file, "");
    assert_eq!(t.current_value(), 0);
    assert!(!t.running);
}

#[test]
fn start_hands_out_the_anchored_state() {
    let mut t = CounterTimer::new("demo".to_string());
    t.set_mode(Mode::Timer);
    t.set_value(5);
    t.set_file("/tmp/out.txt".to_string());
    let a = t.start_counter().expect("an idle instance must start");
    assert!(t.running);
    assert_eq!(a.mode, Mode::Timer);
    assert_eq!(a.start_value, 5);
    assert_eq!(a.target_path, "/tmp/out.txt");
    assert!(a.sink_configured());
}

#[test]
fn empty_path_means_no_sink() {
    let mut t = CounterTimer::new("demo".to_string());
    let a = t.start_counter().expect("an idle instance must start");
    assert!(!a.sink_configured());
}

#[test]
fn starting_twice_is_a_no_op() {
    let mut t = CounterTimer::new("demo".to_string());
    t.set_value(17);
    assert!(t.start_counter().is_some());
    // A second start hands out nothing: no double-anchoring, no duplicate
    // writer, and the recorded state does not change.
    assert!(t.start_counter().is_none());
    assert!(t.running);
    assert_eq!(t.current_value(), 17);
}

#[test]
fn stopping_twice_is_a_no_op() {
    let mut t = CounterTimer::new("demo".to_string());
    t.set_value(9);
    assert!(t.start_counter().is_some());
    assert!(t.stop_counter());
    let before = (t.name.clone(), t.mode, t.file.clone(), t.current_value(), t.running);
    assert!(!t.stop_counter());
    assert!(!t.stop_counter());
    let after = (t.name.clone(), t.mode, t.file.clone(), t.current_value(), t.running);
    assert_eq!(before, after);
    assert!(!t.running);
}

#[test]
fn stopping_an_idle_instance_signals_nothing() {
    let mut t = CounterTimer::new("demo".to_string());
    assert!(!t.stop_counter());
    assert!(!t.running);
}

#[test]
fn crash_is_reaped_and_reported_once() {
    let mut t = CounterTimer::new("demo".to_string());
    assert!(t.start_counter().is_some());
    assert!(!t.check_counter(ActivationHealth::Running));
    assert!(t.running);
    assert!(t.check_counter(ActivationHealth::Panicked));
    assert!(!t.running);
    // Reaped: a later poll has nothing left to report, and a restart works.
    assert!(!t.check_counter(ActivationHealth::Panicked));
    assert!(t.start_counter().is_some());
}

#[test]
fn natural_finish_is_reaped_silently() {
    let mut t = CounterTimer::new("demo".to_string());
    assert!(t.start_counter().is_some());
    assert!(!t.check_counter(ActivationHealth::FinishedOk));
    assert!(!t.running);
}

#[test]
fn count_down_scenario() {
    // start("demo", counting down, 5, "/tmp/out.txt"): after five whole
    // seconds the sink text reaches "00:00:00", one second later
    // "-00:00:01", and the activation is still running.
    let mut t = CounterTimer::new("demo".to_string());
    t.set_mode(Mode::Timer);
    t.set_value(5);
    t.set_file("/tmp/out.txt".to_string());
    let a = t.start_counter().expect("an idle instance must start");
    let mut act = Activation::new(a.mode, a.start_value, a.sink_configured());
    for n in 0..=4u64 {
        let o = act.on_tick(n, 0);
        assert_eq!(o.value, 5 - n as i64);
        assert!(o.write_sink);
        assert!(!o.saturated);
    }
    let o5 = act.on_tick(5, 0);
    assert_eq!(o5.text, "00:00:00");
    assert!(!o5.saturated);
    let o6 = act.on_tick(6, 0);
    assert_eq!(o6.text, "-00:00:01");
    assert!(!o6.saturated);
    assert!(!act.finished);
    assert!(t.running);
}

#[test]
fn saturation_ends_the_activation() {
    let mut act = Activation::new(Mode::Counter, i64::MAX - 1, false);
    let o1 = act.on_tick(1, 0);
    assert_eq!(o1.value, i64::MAX);
    assert!(!o1.saturated);
    assert!(!act.finished);
    let o2 = act.on_tick(2, 0);
    assert_eq!(o2.value, i64::MAX);
    assert!(o2.saturated);
    assert!(act.finished);
}

#[test]
fn tick_without_sink_skips_writing() {
    let mut act = Activation::new(Mode::Counter, 0, false);
    let o = act.on_tick(1, 0);
    assert!(!o.write_sink);
    assert_eq!(o.text, "00:00:01");
}

#[test]
fn wall_clock_tick_uses_the_handed_in_time_of_day() {
    let mut act = Activation::new(Mode::SystemTime, 30, false);
    let o = act.on_tick(7, 3600);
    assert_eq!(o.value, 3630);
    assert_eq!(o.text, "01:00:30");
    assert!(!o.saturated);
}

#[test]
fn sink_faults_are_rate_limited_per_window() {
    let mut act = Activation::new(Mode::Counter, 0, true);
    // One open fault report per thirty-second window while the loop keeps
    // retrying.
    assert!(act.note_sink_fault(SinkFault::Open, 0));
    assert!(!act.note_sink_fault(SinkFault::Open, 1));
    assert!(!act.note_sink_fault(SinkFault::Open, 15));
    assert!(!act.note_sink_fault(SinkFault::Open, 30));
    assert!(act.note_sink_fault(SinkFault::Open, 31));
    assert!(!act.note_sink_fault(SinkFault::Open, 32));
    // Meanwhile the ticks keep updating the value correctly.
    let o = act.on_tick(3, 0);
    assert_eq!(o.value, 3);
}

#[test]
fn sink_fault_kinds_are_limited_independently() {
    let mut act = Activation::new(Mode::Counter, 0, true);
    assert!(act.note_sink_fault(SinkFault::Open, 0));
    assert!(act.note_sink_fault(SinkFault::Seek, 1));
    assert!(act.note_sink_fault(SinkFault::Write, 2));
    assert!(!act.note_sink_fault(SinkFault::Open, 20));
    assert!(!act.note_sink_fault(SinkFault::Seek, 20));
    assert!(!act.note_sink_fault(SinkFault::Write, 20));
    assert!(act.note_sink_fault(SinkFault::Open, 40));
}
