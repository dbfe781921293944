use std::sync::Arc;

use stack_probe::config::{Action, Config};
use stack_probe::measure::{stack_delta, ContinuousListener, Gauge};
use stack_probe::session::{Command, Event, Phase, Session, SessionError};
use stack_probe::throttle::{RateLimitedListener, INTERVAL_NANOS};

fn config(name: &str, action: Action) -> Config {
    Config { target_function: name.to_string(), action }
}

#[test]
fn delta_of_representative_stack_pointers() {
    assert_eq!(stack_delta(0x7ffee0000100, 0x7ffee00000f0), 0x10);
    assert_eq!(stack_delta(0x7ffee00000f0, 0x7ffee0000100), -16);
    assert_eq!(stack_delta(42, 42), 0);
}

#[test]
fn delta_wraps_as_signed_words() {
    assert_eq!(stack_delta(0, u64::MAX), 1);
    assert_eq!(stack_delta(u64::MAX, 0), -1);
    assert_eq!(stack_delta(1u64 << 63, 0), i64::MIN);
    assert_eq!(stack_delta(0, 1u64 << 63), i64::MIN);
    assert_eq!(stack_delta(i64::MAX as u64, 0), i64::MAX);
    assert_eq!(stack_delta(0, i64::MAX as u64), -i64::MAX);
}

#[test]
fn gauge_keeps_the_last_write() {
    let g = Gauge::new(0);
    assert_eq!(g.read(), 0);
    g.record(5);
    g.record(-3);
    g.record(7);
    assert_eq!(g.read(), 7);
}

#[test]
fn continuous_listener_overwrites_on_every_hit() {
    let gauge = Arc::new(Gauge::new(0));
    let l = ContinuousListener::new(gauge.clone());
    assert_eq!(l.on_hit(0x7ffee0000100, 0x7ffee00000f0), 16);
    assert_eq!(gauge.read(), 16);
    assert_eq!(l.on_hit(0x1000, 0x1040), -64);
    assert_eq!(gauge.read(), -64);
    assert_eq!(l.on_hit(0x2000, 0x1000), 0x1000);
    assert_eq!(gauge.read(), 0x1000);
}

#[test]
fn rate_limited_first_hit_emits() {
    let mut l = RateLimitedListener::new();
    assert_eq!(l.interval, INTERVAL_NANOS);
    assert_eq!(l.on_hit(0, 0x7ffee0000100, 0x7ffee00000f0), Some(16));
    assert_eq!(l.last_emitted, Some(0));
}

#[test]
fn rate_limited_close_hits_emit_once() {
    let mut l = RateLimitedListener::new();
    assert_eq!(l.on_hit(5_000, 200, 100), Some(100));
    assert_eq!(l.on_hit(5_000 + 500_000_000, 300, 100), None);
    assert_eq!(l.on_hit(5_000 + INTERVAL_NANOS - 1, 300, 100), None);
    assert_eq!(l.last_emitted, Some(5_000));
}

#[test]
fn rate_limited_hit_exactly_one_interval_later_emits() {
    let mut l = RateLimitedListener::new();
    assert_eq!(l.on_hit(5_000, 200, 100), Some(100));
    assert_eq!(l.on_hit(5_000 + INTERVAL_NANOS, 300, 100), Some(200));
    assert_eq!(l.last_emitted, Some(5_000 + INTERVAL_NANOS));
}

#[test]
fn rate_limited_spaced_hits_both_emit() {
    let mut l = RateLimitedListener::new();
    assert_eq!(l.on_hit(1_000, 200, 100), Some(100));
    assert_eq!(l.on_hit(1_000 + INTERVAL_NANOS + 1, 100, 200), Some(-100));
    assert_eq!(l.last_emitted, Some(1_000 + INTERVAL_NANOS + 1));
}

#[test]
fn rate_limited_clock_before_last_emission_does_not_emit() {
    let mut l = RateLimitedListener::with_interval(10);
    assert_eq!(l.on_hit(100, 1, 0), Some(1));
    assert_eq!(l.on_hit(50, 1, 0), None);
    assert_eq!(l.on_hit(109, 1, 0), None);
    assert_eq!(l.on_hit(110, 1, 0), Some(1));
}

#[test]
fn continuous_session_reports_after_attach() {
    let mut s = Session::new();
    let c = s.handle(Event::ConfigDecoded(config("compute", Action::MeasureStack)));
    assert!(matches!(c, Command::Resolve(ref n) if n == "compute"));
    assert_eq!(s.phase, Phase::AwaitSymbol(Action::MeasureStack));
    let c = s.handle(Event::SymbolFound);
    assert!(matches!(c, Command::Attach(Action::MeasureStack)));
    let c = s.handle(Event::ProbeAttached);
    assert!(matches!(c, Command::ReportAfterInterval));
    assert_eq!(s.phase, Phase::Reporting(Action::MeasureStack));
    for _ in 0..3 {
        assert!(matches!(s.handle(Event::Tick), Command::ReportAfterInterval));
    }
    assert_eq!(s.phase, Phase::Reporting(Action::MeasureStack));
}

#[test]
fn rate_limited_session_idles_after_attach() {
    let mut s = Session::new();
    s.handle(Event::ConfigDecoded(config("compute", Action::DoMoreStuff)));
    assert!(matches!(s.handle(Event::SymbolFound), Command::Attach(Action::DoMoreStuff)));
    assert!(matches!(s.handle(Event::ProbeAttached), Command::IdleInterval));
    assert!(matches!(s.handle(Event::Tick), Command::IdleInterval));
    assert_eq!(s.phase, Phase::Reporting(Action::DoMoreStuff));
}

#[test]
fn reporting_session_never_switches_action() {
    let mut s = Session::new();
    s.handle(Event::ConfigDecoded(config("compute", Action::MeasureStack)));
    s.handle(Event::SymbolFound);
    s.handle(Event::ProbeAttached);
    assert!(matches!(
        s.handle(Event::ConfigDecoded(config("other", Action::DoMoreStuff))),
        Command::Nothing
    ));
    assert!(matches!(s.handle(Event::SymbolFound), Command::Nothing));
    assert_eq!(s.phase, Phase::Reporting(Action::MeasureStack));
}

#[test]
fn malformed_config_ends_session_without_measuring() {
    let mut s = Session::new();
    let c = s.handle(Event::ConfigRejected);
    assert!(matches!(c, Command::Abort(SessionError::ConfigInvalid)));
    assert_eq!(s.phase, Phase::Ended(SessionError::ConfigInvalid));
    assert!(matches!(s.handle(Event::SymbolFound), Command::Nothing));
    assert!(matches!(s.handle(Event::ProbeAttached), Command::Nothing));
    assert!(matches!(s.handle(Event::Tick), Command::Nothing));
    assert_eq!(s.phase, Phase::Ended(SessionError::ConfigInvalid));
}

#[test]
fn missing_symbol_aborts_once_and_never_attaches() {
    let mut s = Session::new();
    s.handle(Event::ConfigDecoded(config("no_such_function", Action::MeasureStack)));
    let c = s.handle(Event::SymbolMissing);
    assert!(matches!(c, Command::Abort(SessionError::SymbolNotFound)));
    for _ in 0..3 {
        assert!(matches!(s.handle(Event::Tick), Command::Nothing));
    }
    assert!(matches!(s.handle(Event::ProbeAttached), Command::Nothing));
    assert_eq!(s.phase, Phase::Ended(SessionError::SymbolNotFound));
}

#[test]
fn rejected_probe_ends_session() {
    let mut s = Session::new();
    s.handle(Event::ConfigDecoded(config("compute", Action::DoMoreStuff)));
    s.handle(Event::SymbolFound);
    let c = s.handle(Event::ProbeRejected);
    assert!(matches!(c, Command::Abort(SessionError::AttachFailed)));
    assert!(matches!(s.handle(Event::Tick), Command::Nothing));
    assert_eq!(s.phase, Phase::Ended(SessionError::AttachFailed));
}

#[test]
fn events_out_of_order_are_ignored() {
    let mut s = Session::new();
    assert!(matches!(s.handle(Event::Tick), Command::Nothing));
    assert!(matches!(s.handle(Event::SymbolFound), Command::Nothing));
    assert_eq!(s.phase, Phase::AwaitConfig);
}

#[test]
fn each_interval_command_follows_action() {
    assert!(matches!(Command::each_interval(Action::MeasureStack), Command::ReportAfterInterval));
    assert!(matches!(Command::each_interval(Action::DoMoreStuff), Command::IdleInterval));
}

#[test]
fn default_action_is_measure_stack() {
    assert_eq!(Action::default(), Action::MeasureStack);
}
