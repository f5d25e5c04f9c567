use async_tail::buffer::{CollectorStatus, LineBuffer, NextLine, PollOutcome};
use async_tail::event::LineEvent;
use async_tail::poll::{Decision, Observation, PollConfig, PollState};
use async_tail::reader::{read_result, ReadError};

fn line(content: &str, source: &str) -> NextLine {
    NextLine::Line(LineEvent::new(content.to_string(), source.to_string()))
}

fn waiting(o: PollOutcome) -> PollState {
    match o {
        PollOutcome::Pending(s) => s,
        _ => panic!("expected the poll to keep waiting"),
    }
}

fn batch(o: PollOutcome) -> Vec<(String, String)> {
    match o {
        PollOutcome::Lines(v) => v.into_iter().map(|e| (e.content, e.source)).collect(),
        _ => panic!("expected a batch"),
    }
}

fn pair(c: &str, s: &str) -> (String, String) {
    (c.to_string(), s.to_string())
}

#[test]
fn two_files_batch_after_count_stabilizes() {
    let cfg = PollConfig { debounce_ms: 50, step_ms: 10, timeout_ms: 0 };
    let mut b = LineBuffer::new();
    assert!(b.deliver(line("x", "a.log")));
    assert!(b.deliver(line("y", "b.log")));
    let s = PollState::start(&cfg, 0);
    let s = waiting(b.tick(&s, cfg.debounce_ms, false, 10));
    assert_eq!(s.last_size, 2);
    assert_eq!(s.debounce_deadline, Some(60));
    let out = batch(b.tick(&s, cfg.debounce_ms, false, 20));
    assert_eq!(out, vec![pair("x", "a.log"), pair("y", "b.log")]);
    assert_eq!(b.len(), 0);
}

#[test]
fn idle_poll_times_out_near_timeout() {
    let cfg = PollConfig { debounce_ms: 50, step_ms: 10, timeout_ms: 100 };
    let mut b = LineBuffer::new();
    let mut s = PollState::start(&cfg, 0);
    assert_eq!(s.timeout_deadline, Some(100));
    let mut fired_at: Option<u64> = None;
    let mut now: u64 = 0;
    while now < 200 {
        now += cfg.step_ms;
        match b.tick(&s, cfg.debounce_ms, false, now) {
            PollOutcome::Pending(t) => s = t,
            PollOutcome::Timeout => {
                fired_at = Some(now);
                break;
            }
            _ => panic!("an idle poll only waits or times out"),
        }
    }
    let at = fired_at.unwrap();
    assert_eq!(at, 110);
    assert!(at >= 90 && at <= 120);
    assert_eq!(b.len(), 0);
}

#[test]
fn timeout_not_before_deadline() {
    let cfg = PollConfig { debounce_ms: 5, step_ms: 10, timeout_ms: 30 };
    let mut b = LineBuffer::new();
    let s = PollState::start(&cfg, 1000);
    let s = waiting(b.tick(&s, cfg.debounce_ms, false, 1030));
    assert!(matches!(b.tick(&s, cfg.debounce_ms, false, 1031), PollOutcome::Timeout));
    assert_eq!(b.len(), 0);
}

#[test]
fn zero_timeout_waits_for_ever() {
    let cfg = PollConfig { debounce_ms: 5, step_ms: 10, timeout_ms: 0 };
    let mut b = LineBuffer::new();
    let s = PollState::start(&cfg, 0);
    assert_eq!(s.timeout_deadline, None);
    let s = waiting(b.tick(&s, cfg.debounce_ms, false, u64::MAX));
    assert_eq!(s.last_size, 0);
}

#[test]
fn timeout_deadline_saturates() {
    let cfg = PollConfig { debounce_ms: 5, step_ms: 10, timeout_ms: 100 };
    let s = PollState::start(&cfg, u64::MAX - 5);
    assert_eq!(s.timeout_deadline, Some(u64::MAX));
    let mut b = LineBuffer::new();
    waiting(b.tick(&s, cfg.debounce_ms, false, u64::MAX));
}

#[test]
fn stable_count_flushes_on_second_equal_tick() {
    let cfg = PollConfig { debounce_ms: 1000, step_ms: 10, timeout_ms: 0 };
    let mut b = LineBuffer::new();
    let s = PollState::start(&cfg, 0);
    let s = waiting(b.tick(&s, cfg.debounce_ms, false, 10));
    b.deliver(line("one", "f"));
    let s = waiting(b.tick(&s, cfg.debounce_ms, false, 20));
    b.deliver(line("two", "f"));
    let s = waiting(b.tick(&s, cfg.debounce_ms, false, 30));
    assert_eq!(s.last_size, 2);
    assert_eq!(s.debounce_deadline, Some(1020));
    let out = batch(b.tick(&s, cfg.debounce_ms, false, 40));
    assert_eq!(out, vec![pair("one", "f"), pair("two", "f")]);
}

#[test]
fn continuous_growth_forces_flush_after_debounce() {
    let cfg = PollConfig { debounce_ms: 30, step_ms: 10, timeout_ms: 0 };
    let mut b = LineBuffer::new();
    let mut s = PollState::start(&cfg, 0);
    let mut now: u64 = 0;
    let mut first_data: Option<u64> = None;
    let flushed_at;
    loop {
        b.deliver(line("more", "grow.log"));
        now += cfg.step_ms;
        if first_data.is_none() {
            first_data = Some(now);
        }
        match b.tick(&s, cfg.debounce_ms, false, now) {
            PollOutcome::Pending(t) => s = t,
            PollOutcome::Lines(v) => {
                assert_eq!(v.len() as u64, now / cfg.step_ms);
                flushed_at = now;
                break;
            }
            _ => panic!("growth only waits or flushes"),
        }
        assert!(now < 1000);
    }
    assert_eq!(first_data, Some(10));
    assert_eq!(flushed_at, 50);
    assert!(flushed_at <= 10 + cfg.debounce_ms + cfg.step_ms);
}

#[test]
fn zero_debounce_flushes_on_next_tick_after_growth() {
    let cfg = PollConfig { debounce_ms: 0, step_ms: 10, timeout_ms: 0 };
    let mut b = LineBuffer::new();
    b.deliver(line("a", "f"));
    let s = PollState::start(&cfg, 0);
    let s = waiting(b.tick(&s, 0, false, 10));
    assert_eq!(s.debounce_deadline, Some(10));
    b.deliver(line("b", "f"));
    let out = batch(b.tick(&s, 0, false, 20));
    assert_eq!(out, vec![pair("a", "f"), pair("b", "f")]);
}

#[test]
fn zero_debounce_flushes_on_next_tick_without_growth() {
    let cfg = PollConfig { debounce_ms: 0, step_ms: 10, timeout_ms: 0 };
    let mut b = LineBuffer::new();
    b.deliver(line("a", "f"));
    let s = PollState::start(&cfg, 0);
    let s = waiting(b.tick(&s, 0, false, 10));
    let out = batch(b.tick(&s, 0, false, 20));
    assert_eq!(out, vec![pair("a", "f")]);
}

#[test]
fn cancellation_drops_buffered_lines() {
    let cfg = PollConfig { debounce_ms: 50, step_ms: 10, timeout_ms: 0 };
    let mut b = LineBuffer::new();
    b.deliver(line("lost", "f"));
    let s = PollState::start(&cfg, 0);
    let s = waiting(b.tick(&s, cfg.debounce_ms, false, 10));
    assert!(matches!(b.tick(&s, cfg.debounce_ms, true, 20), PollOutcome::Cancelled));
    assert_eq!(b.len(), 0);
}

#[test]
fn cancellation_wins_over_stopped_collector() {
    let cfg = PollConfig { debounce_ms: 50, step_ms: 10, timeout_ms: 5 };
    let mut b = LineBuffer::new();
    assert!(!b.deliver(NextLine::Ended));
    let s = PollState::start(&cfg, 0);
    assert!(matches!(b.tick(&s, cfg.debounce_ms, true, 100), PollOutcome::Cancelled));
}

#[test]
fn every_line_in_exactly_one_batch_in_order() {
    let cfg = PollConfig { debounce_ms: 100, step_ms: 10, timeout_ms: 0 };
    let mut b = LineBuffer::new();
    let mut all: Vec<(String, String)> = Vec::new();
    let mut got: Vec<(String, String)> = Vec::new();
    let mut now: u64 = 0;
    for round in 0..4u64 {
        for k in 0..(round + 1) {
            let src = if k % 2 == 0 { "a.log" } else { "b.log" };
            let text = format!("r{}k{}", round, k);
            b.deliver(line(&text, src));
            all.push(pair(&text, src));
        }
        let mut s = PollState::start(&cfg, now);
        loop {
            now += cfg.step_ms;
            match b.tick(&s, cfg.debounce_ms, false, now) {
                PollOutcome::Pending(t) => s = t,
                PollOutcome::Lines(v) => {
                    got.extend(v.into_iter().map(|e| (e.content, e.source)));
                    break;
                }
                _ => panic!("unexpected outcome"),
            }
        }
    }
    assert_eq!(got, all);
    assert_eq!(b.len(), 0);
}

#[test]
fn collector_stops_on_end_and_stays_stopped() {
    let mut b = LineBuffer::new();
    assert!(matches!(b.status(), CollectorStatus::Running));
    assert!(b.deliver(line("kept", "f")));
    assert!(!b.deliver(NextLine::Ended));
    assert!(matches!(b.status(), CollectorStatus::Ended));
    assert!(!b.deliver(line("ignored", "f")));
    assert_eq!(b.len(), 1);
}

#[test]
fn collector_failure_is_kept_with_its_message() {
    let mut b = LineBuffer::new();
    assert!(!b.deliver(NextLine::Failed("watch lost".to_string())));
    match b.status() {
        CollectorStatus::Failed(m) => assert_eq!(m, "watch lost"),
        _ => panic!("expected a failed collector"),
    }
    assert!(!b.deliver(NextLine::Ended));
    assert!(matches!(b.status(), CollectorStatus::Failed(_)));
}

#[test]
fn stopped_collector_ends_an_idle_poll() {
    let cfg = PollConfig { debounce_ms: 50, step_ms: 10, timeout_ms: 0 };
    let mut b = LineBuffer::new();
    b.deliver(line("last", "f"));
    b.deliver(NextLine::Failed("gone".to_string()));
    let s = PollState::start(&cfg, 0);
    let s = waiting(b.tick(&s, cfg.debounce_ms, false, 10));
    assert_eq!(batch(b.tick(&s, cfg.debounce_ms, false, 20)), vec![pair("last", "f")]);
    let s = PollState::start(&cfg, 20);
    assert!(matches!(b.tick(&s, cfg.debounce_ms, false, 30), PollOutcome::CollectorStopped));
}

#[test]
fn clear_drops_everything() {
    let mut b = LineBuffer::new();
    b.deliver(line("a", "f"));
    b.deliver(line("b", "g"));
    assert_eq!(b.len(), 2);
    b.clear();
    assert_eq!(b.len(), 0);
}

#[test]
fn decide_follows_the_state_machine() {
    let s = PollState { last_size: 3, debounce_deadline: Some(50), timeout_deadline: Some(20) };
    let o = |cancelled: bool, size: usize, now: u64| Observation { cancelled, size, now };
    assert!(matches!(s.decide(10, o(true, 3, 0)), Decision::Cancelled));
    assert!(matches!(s.decide(10, o(false, 3, 0)), Decision::Flush));
    assert!(matches!(s.decide(10, o(false, 4, 51)), Decision::Flush));
    match s.decide(10, o(false, 4, 50)) {
        Decision::Wait(t) => {
            assert_eq!(t.last_size, 4);
            assert_eq!(t.debounce_deadline, Some(50));
        }
        _ => panic!("expected to wait"),
    }
    assert!(matches!(s.decide(10, o(false, 0, 21)), Decision::Timeout));
    assert!(matches!(s.decide(10, o(false, 0, 20)), Decision::Wait(_)));
    let fresh = PollState { last_size: 0, debounce_deadline: None, timeout_deadline: None };
    match fresh.decide(7, o(false, 1, 100)) {
        Decision::Wait(t) => assert_eq!(t.debounce_deadline, Some(107)),
        _ => panic!("expected to wait"),
    }
    match fresh.decide(7, o(false, 1, u64::MAX - 1)) {
        Decision::Wait(t) => assert_eq!(t.debounce_deadline, Some(u64::MAX)),
        _ => panic!("expected to wait"),
    }
}

#[test]
fn read_result_passes_line_through() {
    let r = read_result(line("hello", "/var/log/app.log"));
    assert_eq!(r.ok(), Some(pair("hello", "/var/log/app.log")));
}

#[test]
fn read_result_reports_end_and_failure() {
    assert!(matches!(read_result(NextLine::Ended), Err(ReadError::Ended)));
    match read_result(NextLine::Failed("denied".to_string())) {
        Err(ReadError::Watch(m)) => assert_eq!(m, "denied"),
        _ => panic!("expected a watch error"),
    }
}
