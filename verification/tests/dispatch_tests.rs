use host_runner::clock::Timestamp;
use host_runner::config::{Config, DEFAULT_IDLE_TIMEOUT_SECS, FIRST_LINE_WAIT_SECS};
use host_runner::dispatch::{dispatch, handle, start_response, Plan};
use host_runner::protocol::{Command, Response};
use host_runner::reaper::POLL_INTERVAL_SECS;
use host_runner::session::{Session, SpawnReport, StartTicket};

fn first_line(url: &str) -> SpawnReport {
    SpawnReport::FirstLine(String::from(url))
}

#[test]
fn keepalive_is_acknowledged() {
    let mut session = Session::new();
    let plan = dispatch(&mut session, b"KeepAlive", Timestamp::from_secs(3));
    assert_eq!(plan, Plan::Reply(Response::Ack));
    assert_eq!(session.last_activity(), Some(Timestamp::from_secs(3)));
    assert!(!session.is_active());
}

#[test]
fn a_request_for_a_session_begins_a_start() {
    let mut session = Session::new();
    let plan = dispatch(&mut session, b"OpenNewConnection", Timestamp::from_secs(3));
    assert_eq!(plan, Plan::Spawn(StartTicket { attempt: 1, terminate: None }));
    assert_eq!(session.last_activity(), None);
}

#[test]
fn an_unknown_request_is_ignored_and_the_next_one_served() {
    let mut session = Session::new();
    let ticket = session.begin_start();
    session.complete_start(ticket.attempt, first_line("https://a"), Timestamp::from_secs(1), 60).unwrap();
    for request in [&b"PING"[..], &b""[..], &b"KeepAlive "[..], &[0xffu8, 0x00][..]] {
        let plan = dispatch(&mut session, request, Timestamp::from_secs(50));
        assert_eq!(plan, Plan::Ignore);
        assert_eq!(session.url(), Some(String::from("https://a")));
        assert_eq!(session.process_id(), Some(1));
        assert_eq!(session.last_activity(), Some(Timestamp::from_secs(1)));
        assert_eq!(session.attempts_issued(), 1);
        assert!(!session.start_pending());
    }
    let plan = dispatch(&mut session, b"KeepAlive", Timestamp::from_secs(51));
    assert_eq!(plan, Plan::Reply(Response::Ack));
    assert_eq!(session.last_activity(), Some(Timestamp::from_secs(51)));
    let plan = dispatch(&mut session, b"OpenNewConnection", Timestamp::from_secs(52));
    assert_eq!(plan, Plan::Reply(Response::Url(String::from("https://a"))));
}

#[test]
fn handle_matches_dispatch() {
    let mut session = Session::new();
    assert_eq!(handle(&mut session, Command::Unknown, Timestamp::from_secs(1)), Plan::Ignore);
    assert_eq!(
        handle(&mut session, Command::KeepAlive, Timestamp::from_secs(2)),
        Plan::Reply(Response::Ack)
    );
    assert_eq!(
        handle(&mut session, Command::OpenNewConnection, Timestamp::from_secs(3)),
        Plan::Spawn(StartTicket { attempt: 1, terminate: None })
    );
    assert_eq!(session.last_activity(), Some(Timestamp::from_secs(2)));
}

#[test]
fn the_response_to_a_start_is_the_url_or_the_error_token() {
    let mut session = Session::new();
    let slow = session.begin_start();
    let ticket = session.begin_start();
    let lost = session.complete_start(slow.attempt, first_line("https://s"), Timestamp::from_secs(1), 60);
    assert_eq!(start_response(&lost), Response::Error);
    let failed = session.complete_start(ticket.attempt, SpawnReport::SpawnError, Timestamp::from_secs(1), 60);
    assert_eq!(start_response(&failed), Response::Error);
    assert_eq!(start_response(&failed).to_bytes(), b"ERROR".to_vec());
    let ticket = session.begin_start();
    let ok = session.complete_start(ticket.attempt, first_line("https://a"), Timestamp::from_secs(1), 60);
    assert_eq!(start_response(&ok), Response::Url(String::from("https://a")));
    assert_eq!(start_response(&ok).to_bytes(), b"https://a".to_vec());
}

#[test]
fn the_default_configuration() {
    let config = Config::default();
    assert_eq!(config.reader_pipe_path, "/tmp/sshx-host-runner-read");
    assert_eq!(config.writer_pipe_path, "/tmp/sshx-host-runner-write");
    assert_eq!(config.idle_timeout_secs, 60);
    assert_eq!(DEFAULT_IDLE_TIMEOUT_SECS, 60);
    assert_eq!(FIRST_LINE_WAIT_SECS, 30);
}

#[test]
fn start_then_immediate_query_returns_the_same_url_without_a_spawn() {
    let mut session = Session::new();
    let plan = dispatch(&mut session, b"OpenNewConnection", Timestamp::from_secs(0));
    let ticket = match plan {
        Plan::Spawn(ticket) => ticket,
        other => panic!("expected a spawn, got {:?}", other),
    };
    let outcome = session.complete_start(ticket.attempt, first_line("https://a"), Timestamp::from_secs(1), 60);
    assert_eq!(start_response(&outcome), Response::Url(String::from("https://a")));
    let plan = dispatch(&mut session, b"OpenNewConnection", Timestamp::from_secs(1));
    assert_eq!(plan, Plan::Reply(Response::Url(String::from("https://a"))));
    assert_eq!(session.attempts_issued(), 1);
    assert_eq!(session.process_id(), Some(1));
}

#[test]
fn query_after_an_idle_kill_spawns_a_fresh_process() {
    let idle_timeout_secs = 60;
    let mut session = Session::new();
    let ticket = session.begin_start();
    let mut reaper = session
        .complete_start(ticket.attempt, first_line("https://a"), Timestamp::from_secs(0), idle_timeout_secs)
        .unwrap()
        .reaper;
    assert_eq!(reaper.wake(&mut session, Timestamp::from_secs(POLL_INTERVAL_SECS)), None);
    let wait = idle_timeout_secs + POLL_INTERVAL_SECS;
    assert_eq!(reaper.wake(&mut session, Timestamp::from_secs(wait)), Some(1));
    let plan = dispatch(&mut session, b"OpenNewConnection", Timestamp::from_secs(wait + 1));
    assert_eq!(plan, Plan::Spawn(StartTicket { attempt: 2, terminate: None }));
    let outcome = session.complete_start(2, first_line("https://b"), Timestamp::from_secs(wait + 2), idle_timeout_secs);
    assert_eq!(start_response(&outcome), Response::Url(String::from("https://b")));
    assert_eq!(session.process_id(), Some(2));
    assert_eq!(session.url(), Some(String::from("https://b")));
}

#[test]
fn keepalives_at_half_the_timeout_keep_the_session_alive() {
    let idle_timeout_secs = 60u64;
    let mut session = Session::new();
    let ticket = session.begin_start();
    let mut reaper = session
        .complete_start(ticket.attempt, first_line("https://a"), Timestamp::from_secs(0), idle_timeout_secs)
        .unwrap()
        .reaper;
    let mut now = 0u64;
    while now < 10 * idle_timeout_secs {
        now += idle_timeout_secs / 2;
        let plan = dispatch(&mut session, b"KeepAlive", Timestamp::from_secs(now));
        assert_eq!(plan, Plan::Reply(Response::Ack));
        if now % POLL_INTERVAL_SECS == 0 {
            assert_eq!(reaper.wake(&mut session, Timestamp::from_parts(now, 999_999_999)), None);
        }
    }
    assert!(now > idle_timeout_secs);
    assert!(reaper.is_running());
    assert_eq!(session.url(), Some(String::from("https://a")));
}

#[test]
fn a_failed_spawn_answers_error_and_the_next_start_succeeds() {
    let mut session = Session::new();
    let plan = dispatch(&mut session, b"OpenNewConnection", Timestamp::from_secs(0));
    assert_eq!(plan, Plan::Spawn(StartTicket { attempt: 1, terminate: None }));
    let outcome = session.complete_start(1, SpawnReport::SpawnError, Timestamp::from_secs(1), 60);
    assert_eq!(start_response(&outcome).to_bytes(), b"ERROR".to_vec());
    assert!(!session.is_active());
    assert!(!session.start_pending());
    let plan = dispatch(&mut session, b"OpenNewConnection", Timestamp::from_secs(2));
    assert_eq!(plan, Plan::Spawn(StartTicket { attempt: 2, terminate: None }));
    let outcome = session.complete_start(2, first_line("https://a"), Timestamp::from_secs(3), 60);
    assert_eq!(start_response(&outcome).to_bytes(), b"https://a".to_vec());
    assert!(session.is_active());
}
