use host_runner::clock::Timestamp;
use host_runner::reaper::{Reaper, ReaperState, POLL_INTERVAL_SECS};
use host_runner::session::{Session, SpawnReport};

fn started(session: &mut Session, url: &str, at: u64, idle_timeout_secs: u64) -> Reaper {
    let ticket = session.begin_start();
    session
        .complete_start(
            ticket.attempt,
            SpawnReport::FirstLine(String::from(url)),
            Timestamp::from_secs(at),
            idle_timeout_secs,
        )
        .unwrap()
        .reaper
}

#[test]
fn the_poll_interval_is_a_minute() {
    assert_eq!(POLL_INTERVAL_SECS, 60);
}

#[test]
fn a_new_reaper_is_running() {
    let reaper = Reaper::new(3, 90);
    assert_eq!(reaper.generation(), 3);
    assert_eq!(reaper.idle_timeout_secs(), 90);
    assert_eq!(reaper.state(), ReaperState::Running);
    assert!(reaper.is_running());
}

#[test]
fn a_wake_before_the_timeout_keeps_running() {
    let mut session = Session::new();
    let mut reaper = started(&mut session, "https://a", 0, 120);
    assert_eq!(reaper.wake(&mut session, Timestamp::from_secs(60)), None);
    assert_eq!(reaper.wake(&mut session, Timestamp::from_secs(120)), None);
    assert!(reaper.is_running());
    assert!(session.is_active());
}

#[test]
fn the_first_wake_after_the_timeout_kills() {
    let mut session = Session::new();
    let mut reaper = started(&mut session, "https://a", 0, 120);
    assert_eq!(reaper.wake(&mut session, Timestamp::from_secs(180)), Some(1));
    assert_eq!(reaper.state(), ReaperState::KilledDueToIdle);
    assert!(!reaper.is_running());
    assert!(!session.is_active());
    assert_eq!(session.url(), None);
}

#[test]
fn an_idle_session_is_killed_within_one_poll_interval_of_the_timeout() {
    for idle_timeout_secs in [0u64, 1, 59, 60, 61, 119, 120, 300, 3601] {
        let launched = 1_000u64;
        let mut session = Session::new();
        let mut reaper = started(&mut session, "https://a", launched, idle_timeout_secs);
        let mut wake = launched;
        let mut killed_at = None;
        for _ in 0..100 {
            wake += POLL_INTERVAL_SECS;
            if let Some(id) = reaper.wake(&mut session, Timestamp::from_secs(wake)) {
                assert_eq!(id, 1);
                killed_at = Some(wake);
                break;
            }
            assert!(wake <= launched + idle_timeout_secs);
            assert!(session.is_active());
        }
        let killed_at = killed_at.unwrap();
        assert_eq!(killed_at, launched + (idle_timeout_secs / 60 + 1) * 60);
        assert!(killed_at > launched + idle_timeout_secs);
        assert!(killed_at <= launched + idle_timeout_secs + POLL_INTERVAL_SECS);
        assert!(!session.is_active());
    }
}

#[test]
fn a_keepalive_postpones_the_kill() {
    let mut session = Session::new();
    let mut reaper = started(&mut session, "https://a", 0, 60);
    session.keep_alive(Timestamp::from_secs(59));
    assert_eq!(reaper.wake(&mut session, Timestamp::from_secs(61)), None);
    assert_eq!(reaper.wake(&mut session, Timestamp::from_secs(119)), None);
    assert_eq!(reaper.wake(&mut session, Timestamp::from_secs(120)), Some(1));
}

#[test]
fn a_superseded_reaper_retires_without_killing() {
    let mut session = Session::new();
    let mut old = started(&mut session, "https://a", 0, 10);
    let mut new = started(&mut session, "https://b", 5, 10_000);
    assert_eq!(old.wake(&mut session, Timestamp::from_secs(5_000)), None);
    assert_eq!(old.state(), ReaperState::SupersededExit);
    assert_eq!(session.url(), Some(String::from("https://b")));
    assert_eq!(session.process_id(), Some(2));
    assert_eq!(new.wake(&mut session, Timestamp::from_secs(5_000)), None);
    assert!(new.is_running());
}

#[test]
fn a_reaper_retires_while_the_next_start_is_still_spawning() {
    let mut session = Session::new();
    let mut old = started(&mut session, "https://a", 0, 10);
    let ticket = session.begin_start();
    assert_eq!(ticket.terminate, Some(1));
    assert_eq!(old.wake(&mut session, Timestamp::from_secs(5_000)), None);
    assert_eq!(old.state(), ReaperState::SupersededExit);
    assert!(session.start_pending());
}

#[test]
fn a_reaper_retires_after_teardown() {
    let mut session = Session::new();
    let mut reaper = started(&mut session, "https://a", 0, 10);
    assert_eq!(session.teardown(), Some(1));
    assert_eq!(reaper.wake(&mut session, Timestamp::from_secs(5_000)), None);
    assert_eq!(reaper.state(), ReaperState::SupersededExit);
}

#[test]
fn a_finished_reaper_never_acts_again() {
    let mut session = Session::new();
    let mut first = started(&mut session, "https://a", 0, 10);
    assert_eq!(first.wake(&mut session, Timestamp::from_secs(60)), Some(1));
    let mut second = started(&mut session, "https://b", 100, 10);
    assert_eq!(first.wake(&mut session, Timestamp::from_secs(9_000)), None);
    assert_eq!(first.state(), ReaperState::KilledDueToIdle);
    assert!(session.is_active());
    assert_eq!(second.wake(&mut session, Timestamp::from_secs(9_000)), Some(2));
    assert_eq!(second.wake(&mut session, Timestamp::from_secs(9_060)), None);
    assert_eq!(second.state(), ReaperState::KilledDueToIdle);
}

#[test]
fn a_forged_reaper_for_a_future_generation_finds_nothing() {
    let mut session = Session::new();
    let _ = started(&mut session, "https://a", 0, 10);
    let mut forged = Reaper::new(2, 0);
    assert_eq!(forged.wake(&mut session, Timestamp::from_secs(9_000)), None);
    assert_eq!(forged.state(), ReaperState::SupersededExit);
    assert!(session.is_active());
}
