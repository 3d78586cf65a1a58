use balloon::balloon::{Balloon, BalloonOutput};
use balloon::client::{login_form, login_path, DomJudgeRunner, RawBalloon};
use balloon::console::{interrupt_command, parse_console, ConsoleInput};
use balloon::csrf::{extract_csrf_token, login_token};
use balloon::dispatch::{Action, Command, DispatchLoop, Event, LoopState};
use balloon::encode::encode_text;
use balloon::error::Error;
use balloon::text::{join_commas, to_decimal};

fn sample(id: usize) -> Balloon {
    Balloon {
        problem: "A".to_string(),
        team: format!("team{}", id),
        location: Some("R1".to_string()),
        color: "red".to_string(),
        total: vec!["A".to_string()],
        awards: "first".to_string(),
        balloonid: id,
    }
}

fn delivered_id(a: Action) -> usize {
    match a {
        Action::Deliver(b) => b.balloonid,
        other => panic!("expected a delivery, got {:?}", other),
    }
}

#[test]
fn missing_location_renders_unknown() {
    let mut b = sample(1);
    b.location = None;
    let out = BalloonOutput::from(b);
    assert_eq!(out.location, "unknown");
}

#[test]
fn present_location_is_kept() {
    let out = BalloonOutput::from(sample(1));
    assert_eq!(out.location, "R1");
    assert_eq!(out.team, "team1");
}

#[test]
fn total_renders_comma_joined_names() {
    let mut b = sample(1);
    b.total = vec!["A".to_string(), "B".to_string()];
    let out = BalloonOutput::from(b);
    assert_eq!(out.total, "A,B");
}

#[test]
fn empty_total_renders_empty() {
    let mut b = sample(1);
    b.total = vec![];
    assert_eq!(BalloonOutput::from(b).total, "");
}

#[test]
fn template_is_filled_from_fields() {
    let mut b = sample(7);
    b.location = None;
    let out = BalloonOutput::from(b);
    let text = out.render("{{team}} solved {{problem}} ({{color}}) at {{location}}; {{missing}}.");
    assert_eq!(text, "team7 solved A (red) at unknown; .");
}

#[test]
fn join_commas_three() {
    let v = vec!["x".to_string(), "yy".to_string(), "z".to_string()];
    assert_eq!(join_commas(&v), "x,yy,z");
}

#[test]
fn decimal_digits() {
    assert_eq!(to_decimal(0), "0");
    assert_eq!(to_decimal(9), "9");
    assert_eq!(to_decimal(1234), "1234");
}

#[test]
fn csrf_token_is_extracted() {
    let html = r#"<form><input type="hidden" name="_csrf_token" value="XYZ123"><input name="_username"></form>"#;
    assert_eq!(extract_csrf_token(html), Some("XYZ123".to_string()));
    assert_eq!(login_token(html).ok(), Some("XYZ123".to_string()));
}

#[test]
fn csrf_token_missing_is_error() {
    let html = r#"<form><input name="_username" value="a"></form>"#;
    assert_eq!(extract_csrf_token(html), None);
    assert!(matches!(login_token(html), Err(Error::CsrfError)));
}

#[test]
fn csrf_value_must_follow_name() {
    let html = r#"<input value="early"> <input name="_csrf_token" id="t" value="late">"#;
    assert_eq!(extract_csrf_token(html), Some("late".to_string()));
}

#[test]
fn basic_auth_header() {
    let r = DomJudgeRunner::new("3", "user", "pass");
    assert_eq!(r.authorization, Some("Basic dXNlcjpwYXNz".to_string()));
    assert_eq!(r.contest, "3");
}

#[test]
fn token_paths() {
    let r = DomJudgeRunner::new("wf", "u", "p");
    assert_eq!(r.balloons_path(), "api/v4/contests/wf/balloons?todo=true");
    assert_eq!(r.done_path(12), "api/v4/contests/wf/balloons/12/done");
    assert!(r.done_is_post());
}

#[test]
fn session_paths() {
    let r = DomJudgeRunner::new_session("wf");
    assert_eq!(r.authorization, None);
    assert_eq!(r.balloons_path(), "api/v4/contests/wf/balloons");
    assert_eq!(r.done_path(305), "jury/balloons/305/done");
    assert!(!r.done_is_post());
    assert_eq!(login_path(), "login");
}

#[test]
fn login_form_fields() {
    let f = login_form("tok", "alice", "secret");
    assert_eq!(
        f,
        vec![
            ("_csrf_token".to_string(), "tok".to_string()),
            ("_username".to_string(), "alice".to_string()),
            ("_password".to_string(), "secret".to_string()),
        ]
    );
}

#[test]
fn session_fetch_drops_done_balloons() {
    let r = DomJudgeRunner::new_session("1");
    let raw = vec![
        RawBalloon { balloon: sample(1), done: true },
        RawBalloon { balloon: sample(2), done: false },
        RawBalloon { balloon: sample(3), done: true },
        RawBalloon { balloon: sample(4), done: false },
    ];
    let kept: Vec<usize> = r.accept_batch(raw).iter().map(|b| b.balloonid).collect();
    assert_eq!(kept, vec![2, 4]);
}

#[test]
fn encode_known_label() {
    assert_eq!(encode_text("gbk", "\u{4e2d}"), vec![0xD6, 0xD0]);
    assert_eq!(encode_text("utf-8", "ab"), b"ab".to_vec());
}

#[test]
fn encode_unknown_label_falls_back_to_utf8() {
    assert_eq!(encode_text("no-such-encoding", "\u{e9}"), vec![0xC3, 0xA9]);
}

#[test]
fn two_balloons_delivered_in_order_then_refetch() {
    let mut lp = DispatchLoop::new();
    assert!(matches!(lp.on_event(Event::Started), Action::PollCommand));
    assert!(matches!(lp.on_event(Event::NoCommand), Action::Fetch));
    assert_eq!(delivered_id(lp.on_event(Event::Fetched(vec![sample(1), sample(2)]))), 1);
    assert!(matches!(lp.on_event(Event::Delivered), Action::PollCommand));
    assert_eq!(delivered_id(lp.on_event(Event::NoCommand)), 2);
    assert!(matches!(lp.on_event(Event::Delivered), Action::PollCommand));
    assert!(matches!(lp.on_event(Event::NoCommand), Action::Fetch));
    assert_eq!(lp.pending(), 0);
}

#[test]
fn pause_resume_cycles_keep_buffer() {
    let mut lp = DispatchLoop::new();
    lp.on_event(Event::Started);
    lp.on_event(Event::NoCommand);
    assert_eq!(delivered_id(lp.on_event(Event::Fetched(vec![sample(1), sample(2), sample(3)]))), 1);
    lp.on_event(Event::Delivered);
    for _ in 0..3 {
        assert!(matches!(lp.on_event(Event::Command(Command::Pause)), Action::WaitCommand));
        assert_eq!(lp.state(), LoopState::Paused);
        assert!(matches!(lp.on_event(Event::TimerElapsed), Action::WaitCommand));
        assert!(matches!(lp.on_event(Event::NoCommand), Action::WaitCommand));
        assert_eq!(lp.pending(), 2);
        assert!(matches!(lp.on_event(Event::Command(Command::Resume)), Action::PollCommand));
        assert_eq!(lp.pending(), 2);
    }
    assert_eq!(delivered_id(lp.on_event(Event::NoCommand)), 2);
}

#[test]
fn empty_fetch_idles() {
    let mut lp = DispatchLoop::new();
    lp.on_event(Event::Started);
    assert!(matches!(lp.on_event(Event::NoCommand), Action::Fetch));
    assert!(matches!(lp.on_event(Event::Fetched(vec![])), Action::IdleWait));
    assert!(matches!(lp.on_event(Event::TimerElapsed), Action::PollCommand));
    assert!(matches!(lp.on_event(Event::Command(Command::Pause)), Action::WaitCommand));
}

#[test]
fn close_during_idle_wait_stops() {
    let mut lp = DispatchLoop::new();
    lp.on_event(Event::Started);
    lp.on_event(Event::NoCommand);
    assert!(matches!(lp.on_event(Event::Fetched(vec![])), Action::IdleWait));
    assert!(matches!(lp.on_event(Event::Closed), Action::Stop));
}

#[test]
fn failures_stop_the_loop() {
    let mut lp = DispatchLoop::new();
    assert!(matches!(lp.on_event(Event::FetchFailed), Action::Stop));
    assert!(matches!(lp.on_event(Event::DeliveryFailed), Action::Stop));
    lp.on_event(Event::Command(Command::Pause));
    assert!(matches!(lp.on_event(Event::Closed), Action::Stop));
}

#[test]
fn console_lines() {
    assert_eq!(parse_console("exit"), ConsoleInput::Exit);
    assert_eq!(parse_console("pause"), ConsoleInput::Pause);
    assert_eq!(parse_console("resume"), ConsoleInput::Resume);
    assert_eq!(parse_console(""), ConsoleInput::Nothing);
    assert_eq!(parse_console("pause "), ConsoleInput::Unknown);
}

#[test]
fn interrupt_toggles() {
    assert_eq!(interrupt_command(false), (Command::Pause, true));
    assert_eq!(interrupt_command(true), (Command::Resume, false));
}
