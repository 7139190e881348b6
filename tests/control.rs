use diver::config::{AppConfig, DEFAULT_MAX_CONN, IDLE_READ_TIMEOUT_MS, POLL_READ_TIMEOUT_MS};
use diver::gate::{Admission, AdmissionPolicy, SessionGate};
use diver::pump::{EndReason, FramePump, Leg, TerminationPolicy};
use diver::session::{Phase, Session, SessionAction, SessionEvent};

fn sample_config(max_conn: Option<usize>) -> AppConfig {
    AppConfig::new(
        "real.example:80".to_string(),
        "test.example:80".to_string(),
        "8080".to_string(),
        max_conn,
        4096,
    )
}

#[test]
fn gate_admits_up_to_its_limit() {
    let mut g = SessionGate::new(2);
    assert!(g.try_admit());
    assert!(g.try_admit());
    assert_eq!(g.live_sessions(), 2);
    assert!(!g.try_admit());
    assert_eq!(g.live_sessions(), 2);
    assert!(g.release());
    assert_eq!(g.live_sessions(), 1);
    assert!(g.try_admit());
    assert_eq!(g.max_sessions(), 2);
}

#[test]
fn full_gate_backs_off_or_refuses_by_policy() {
    let mut g = SessionGate::new(1);
    assert_eq!(g.request_slot(AdmissionPolicy::Wait), Admission::Admitted);
    assert_eq!(g.request_slot(AdmissionPolicy::Wait), Admission::Backoff);
    assert_eq!(g.request_slot(AdmissionPolicy::Reject), Admission::Refused);
    assert_eq!(g.live_sessions(), 1);
    g.release();
    assert_eq!(g.request_slot(AdmissionPolicy::Reject), Admission::Admitted);
}

#[test]
fn gate_with_zero_limit_admits_nobody() {
    let mut g = SessionGate::new(0);
    assert!(!g.try_admit());
    assert_eq!(g.request_slot(AdmissionPolicy::Reject), Admission::Refused);
}

#[test]
fn release_on_empty_gate_does_nothing() {
    let mut g = SessionGate::new(3);
    assert!(!g.release());
    assert_eq!(g.live_sessions(), 0);
}

#[test]
fn session_runs_through_its_phases() {
    let mut s = Session::new();
    assert!(s.is_open());
    assert_eq!(s.on_event(SessionEvent::PrimaryConnected), SessionAction::ConnectShadow);
    assert_eq!(s.on_event(SessionEvent::ShadowConnected), SessionAction::StartRelay);
    assert_eq!(s.phase, Phase::Relaying);
    assert_eq!(s.on_event(SessionEvent::LegEnded(EndReason::IdleLimit)), SessionAction::Teardown);
    assert!(!s.is_open());
    // the other two directions end later: no second teardown
    assert_eq!(s.on_event(SessionEvent::LegEnded(EndReason::Eof)), SessionAction::Nothing);
    assert_eq!(s.on_event(SessionEvent::LegEnded(EndReason::ReadError)), SessionAction::Nothing);
}

#[test]
fn refused_primary_closes_session_without_shadow() {
    let mut s = Session::new();
    assert_eq!(s.on_event(SessionEvent::PrimaryFailed), SessionAction::Teardown);
    assert_eq!(s.phase, Phase::Closed);
    assert_eq!(s.on_event(SessionEvent::PrimaryConnected), SessionAction::Nothing);
    assert_eq!(s.on_event(SessionEvent::ShadowConnected), SessionAction::Nothing);
}

#[test]
fn refused_shadow_closes_session() {
    let mut s = Session::new();
    s.on_event(SessionEvent::PrimaryConnected);
    assert_eq!(s.on_event(SessionEvent::ShadowFailed), SessionAction::Teardown);
    assert!(!s.is_open());
}

#[test]
fn idle_session_releases_its_slot() {
    let cfg = sample_config(Some(1)).with_termination(TerminationPolicy::IdleCount(2));
    let mut gate = cfg.new_gate();
    assert!(gate.try_admit());
    let mut s = Session::new();
    s.on_event(SessionEvent::PrimaryConnected);
    s.on_event(SessionEvent::ShadowConnected);
    let mut pump = cfg.new_pump(Leg::Upstream);
    let buf = vec![0u8; 8];
    pump.step(&buf, diver::pump::ReadResult::TimedOut);
    let stop = pump.step(&buf, diver::pump::ReadResult::TimedOut);
    assert_eq!(stop, diver::pump::Step::Stop(EndReason::IdleLimit));
    if s.on_event(SessionEvent::LegEnded(EndReason::IdleLimit)) == SessionAction::Teardown {
        assert!(gate.release());
    }
    assert_eq!(gate.live_sessions(), 0);
    assert!(gate.try_admit());
}

#[test]
fn config_defaults_and_limits() {
    let cfg = sample_config(None);
    assert_eq!(cfg.max_sessions(), DEFAULT_MAX_CONN);
    assert_eq!(cfg.max_sessions(), 1000);
    assert_eq!(sample_config(Some(7)).max_sessions(), 7);
    assert_eq!(cfg.admission, AdmissionPolicy::Wait);
    assert_eq!(cfg.termination, TerminationPolicy::ReadTimeout);
    assert_eq!(cfg.new_gate().max_sessions(), 1000);
    assert_eq!(cfg.new_gate().live_sessions(), 0);
    assert_eq!(cfg.primary, "real.example:80");
    assert_eq!(cfg.shadow, "test.example:80");
    assert_eq!(cfg.buffer_size_bytes, 4096);
}

#[test]
fn listen_address_uses_all_interfaces() {
    assert_eq!(sample_config(None).listen_address(), "0.0.0.0:8080");
}

#[test]
fn read_timeout_follows_termination_policy() {
    let cfg = sample_config(None);
    assert_eq!(cfg.read_timeout_ms(), IDLE_READ_TIMEOUT_MS);
    assert_eq!(cfg.read_timeout_ms(), 10_000);
    let cfg = cfg.with_termination(TerminationPolicy::IdleCount(100));
    assert_eq!(cfg.read_timeout_ms(), POLL_READ_TIMEOUT_MS);
    assert_eq!(cfg.read_timeout_ms(), 100);
    let cfg = cfg.with_admission(AdmissionPolicy::Reject);
    assert_eq!(cfg.admission, AdmissionPolicy::Reject);
    assert_eq!(cfg.termination, TerminationPolicy::IdleCount(100));
    let p = cfg.new_pump(Leg::Reply);
    let q = FramePump::new(Leg::Reply, TerminationPolicy::IdleCount(100));
    assert_eq!((p.leg, p.policy, p.idle, p.ended), (q.leg, q.policy, q.idle, q.ended));
}
