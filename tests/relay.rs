use ws_relay::frame::{Frame, Side};
use ws_relay::session::{Action, ConnectOutcome, Event, Inbound, Session, StartAction, Status};
use ws_relay::upstream::{upstream_url, RelayConfig, DEFAULT_CONNECT_TIMEOUT_MS, UPSTREAM_ENDPOINT};

fn active() -> Session {
    let mut s = Session::new();
    assert_eq!(s.status(), Status::Connecting);
    assert_eq!(s.on_connect(ConnectOutcome::Connected), StartAction::Relay);
    assert_eq!(s.status(), Status::Active);
    s
}

fn from_client(f: Frame) -> Event {
    Event::Received(Side::Client, Inbound::Data(f))
}

fn from_upstream(f: Frame) -> Event {
    Event::Received(Side::Upstream, Inbound::Data(f))
}

#[test]
fn client_binary_reaches_upstream_unchanged() {
    let bytes: Vec<u8> = (0..1024u32).map(|i| (i.wrapping_mul(2654435761) >> 13) as u8).collect();
    let mut s = active();
    let a = s.step(from_client(Frame::Binary(bytes.clone())));
    match a {
        Action::Forward(Side::Upstream, Frame::Binary(out)) => {
            assert_eq!(out.len(), 1024);
            assert_eq!(out, bytes);
        }
        other => panic!("unexpected action {:?}", other),
    }
    assert_eq!(s.status(), Status::Active);
}

#[test]
fn upstream_text_reaches_client_unchanged() {
    let text = "{\"type\":\"error\",\"detail\":\"quota exceeded\"}";
    let mut s = active();
    let a = s.step(from_upstream(Frame::Text(text.to_string())));
    assert_eq!(a, Action::Forward(Side::Client, Frame::Text(text.to_string())));
    assert_eq!(s.status(), Status::Active);
}

#[test]
fn upstream_read_error_closes_both_legs() {
    let mut s = active();
    assert_eq!(
        s.step(from_client(Frame::Text("hello".to_string()))),
        Action::Forward(Side::Upstream, Frame::Text("hello".to_string()))
    );
    assert_eq!(s.step(Event::Received(Side::Upstream, Inbound::Ended)), Action::CloseBoth);
    assert_eq!(s.status(), Status::Closing);
    // nothing is forwarded any more, from either leg
    assert_eq!(s.step(from_client(Frame::Binary(vec![1, 2]))), Action::Discard);
    assert_eq!(s.step(from_upstream(Frame::Text("late".to_string()))), Action::Discard);
    s.released();
    assert_eq!(s.status(), Status::Closed);
    assert_eq!(s.step(from_client(Frame::Binary(vec![3]))), Action::Discard);
}

#[test]
fn failed_connect_closes_client_without_relay() {
    let mut s = Session::new();
    assert_eq!(s.on_connect(ConnectOutcome::Failed), StartAction::CloseClient);
    assert_eq!(s.status(), Status::Closed);
    assert_eq!(s.step(from_client(Frame::Binary(vec![9]))), Action::Discard);
}

#[test]
fn connect_timeout_closes_client_without_relay() {
    let mut s = Session::new();
    assert_eq!(s.on_connect(ConnectOutcome::TimedOut), StartAction::CloseClient);
    assert_eq!(s.status(), Status::Closed);
}

#[test]
fn frames_pass_through_in_order_both_ways() {
    let mut s = active();
    let events = vec![
        from_client(Frame::Text("setup".to_string())),
        from_upstream(Frame::Binary(vec![10, 11])),
        from_client(Frame::Binary(vec![1])),
        Event::Received(Side::Client, Inbound::Control),
        from_client(Frame::Binary(vec![2, 3])),
        from_upstream(Frame::Text("done".to_string())),
    ];
    let mut to_upstream = Vec::new();
    let mut to_client = Vec::new();
    for e in events {
        match s.step(e) {
            Action::Forward(Side::Upstream, f) => to_upstream.push(f),
            Action::Forward(Side::Client, f) => to_client.push(f),
            Action::Wait => {}
            other => panic!("unexpected action {:?}", other),
        }
    }
    assert_eq!(
        to_upstream,
        vec![Frame::Text("setup".to_string()), Frame::Binary(vec![1]), Frame::Binary(vec![2, 3])]
    );
    assert_eq!(to_client, vec![Frame::Binary(vec![10, 11]), Frame::Text("done".to_string())]);
    assert_eq!(s.status(), Status::Active);
}

#[test]
fn client_close_frame_ends_session() {
    let mut s = active();
    assert_eq!(s.step(Event::Received(Side::Client, Inbound::Close)), Action::CloseBoth);
    assert_eq!(s.status(), Status::Closing);
    assert_eq!(s.step(from_upstream(Frame::Text("more".to_string()))), Action::Discard);
}

#[test]
fn client_read_error_ends_session() {
    let mut s = active();
    assert_eq!(s.step(Event::Received(Side::Client, Inbound::Ended)), Action::CloseBoth);
    assert_eq!(s.status(), Status::Closing);
}

#[test]
fn upstream_close_frame_ends_session() {
    let mut s = active();
    assert_eq!(s.step(Event::Received(Side::Upstream, Inbound::Close)), Action::CloseBoth);
    assert_eq!(s.status(), Status::Closing);
}

#[test]
fn idle_timeout_ends_session() {
    let mut s = active();
    assert_eq!(s.step(Event::IdleTimeout), Action::CloseBoth);
    assert_eq!(s.status(), Status::Closing);
}

#[test]
fn control_frames_are_not_forwarded() {
    let mut s = active();
    assert_eq!(s.step(Event::Received(Side::Upstream, Inbound::Control)), Action::Wait);
    assert_eq!(s.step(Event::Received(Side::Client, Inbound::Control)), Action::Wait);
    assert_eq!(s.status(), Status::Active);
}

#[test]
fn write_failure_keeps_other_direction_running() {
    let mut s = active();
    assert_eq!(s.step(Event::WriteFailed(Side::Client)), Action::Wait);
    assert_eq!(s.status(), Status::Active);
    assert_eq!(
        s.step(from_client(Frame::Binary(vec![7, 7]))),
        Action::Forward(Side::Upstream, Frame::Binary(vec![7, 7]))
    );
    assert_eq!(s.step(Event::WriteFailed(Side::Upstream)), Action::Wait);
    assert_eq!(
        s.step(from_upstream(Frame::Text("still here".to_string()))),
        Action::Forward(Side::Client, Frame::Text("still here".to_string()))
    );
    assert_eq!(s.status(), Status::Active);
}

#[test]
fn two_sessions_do_not_share_frames() {
    let mut a = active();
    let mut b = active();
    let ra = a.step(from_client(Frame::Text("from a".to_string())));
    let rb = b.step(from_client(Frame::Text("from b".to_string())));
    assert_eq!(b.step(Event::Received(Side::Upstream, Inbound::Ended)), Action::CloseBoth);
    let ra2 = a.step(from_client(Frame::Binary(vec![0xa])));
    assert_eq!(ra, Action::Forward(Side::Upstream, Frame::Text("from a".to_string())));
    assert_eq!(rb, Action::Forward(Side::Upstream, Frame::Text("from b".to_string())));
    assert_eq!(ra2, Action::Forward(Side::Upstream, Frame::Binary(vec![0xa])));
    assert_eq!(a.status(), Status::Active);
    assert_eq!(b.status(), Status::Closing);
}

#[test]
fn empty_frames_are_forwarded() {
    let mut s = active();
    assert_eq!(
        s.step(from_client(Frame::Binary(Vec::new()))),
        Action::Forward(Side::Upstream, Frame::Binary(Vec::new()))
    );
    assert_eq!(
        s.step(from_upstream(Frame::Text(String::new()))),
        Action::Forward(Side::Client, Frame::Text(String::new()))
    );
}

#[test]
fn released_only_finishes_a_closing_session() {
    let mut s = active();
    s.released();
    assert_eq!(s.status(), Status::Active);
}

#[test]
fn side_other_swaps_legs() {
    assert_eq!(Side::Client.other(), Side::Upstream);
    assert_eq!(Side::Upstream.other(), Side::Client);
}

#[test]
fn upstream_url_appends_credential() {
    assert_eq!(
        upstream_url("SECRET-REDACTED"),
        "wss://generativelanguage.googleapis.com/ws/google.ai.generativelanguage.v1alpha.GenerativeService.BidiGenerateContent?key=SECRET-REDACTED"
    );
    assert_eq!(upstream_url(""), UPSTREAM_ENDPOINT);
}

#[test]
fn config_defaults_and_options() {
    let c = RelayConfig::new("abc".to_string());
    assert_eq!(c.connect_timeout_ms(), DEFAULT_CONNECT_TIMEOUT_MS);
    assert_eq!(c.idle_timeout_ms(), None);
    assert_eq!(c.upstream_url(), format!("{}abc", UPSTREAM_ENDPOINT));
    let c = c.with_connect_timeout_ms(2500).with_idle_timeout_ms(60000);
    assert_eq!(c.connect_timeout_ms(), 2500);
    assert_eq!(c.idle_timeout_ms(), Some(60000));
    assert_eq!(c.upstream_url(), format!("{}abc", UPSTREAM_ENDPOINT));
}
