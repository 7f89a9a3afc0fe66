use echo_server::{Action, Ending, Event, Frame, Phase, Session, MAX_MESSAGE_SIZE, SESSION_LIFETIME_MS};

fn text(s: &str) -> Frame {
    Frame::Text(s.to_string())
}

fn sent() -> Event {
    Event::Sent { ok: true }
}

fn failed() -> Event {
    Event::Sent { ok: false }
}

fn received(frame: Frame, at: u64) -> Event {
    Event::Received { frame, at }
}

/// A session started at `now` whose greeting went out.
fn active(now: u64) -> Session {
    let (mut s, greeting) = Session::start(now);
    assert_eq!(greeting, Action::Send(text("Hello from Rust!")));
    assert_eq!(s.step(sent()), Action::Receive);
    s
}

#[test]
fn end_to_end_ping_then_timeout() {
    let (mut s, first) = Session::start(0);
    assert_eq!(first, Action::Send(text("Hello from Rust!")));
    assert_eq!(s.step(sent()), Action::Receive);
    assert_eq!(s.step(received(text("ping"), 50)), Action::Send(text("ping")));
    assert_eq!(s.step(sent()), Action::Receive);
    assert_eq!(s.remaining(50), 9_950);
    assert_eq!(s.remaining(11_050), 0);
    assert_eq!(s.step(Event::Elapsed), Action::Send(text("Timeout expired")));
    assert_eq!(s.step(sent()), Action::Send(text("Bye Bye")));
    assert_eq!(s.step(sent()), Action::Close);
    assert_eq!(s.step(Event::CloseDone), Action::Finish);
    assert!(s.is_over());
    assert_eq!(s.ending, Some(Ending::TimedOut));
}

#[test]
fn start_fixes_deadline() {
    let (s, _) = Session::start(1_000);
    assert_eq!(s.deadline, 1_000 + SESSION_LIFETIME_MS);
    assert_eq!(s.deadline, 11_000);
    assert_eq!(s.phase, Phase::Greeting);
    assert_eq!(s.ending, None);
}

#[test]
fn remaining_counts_down_to_zero() {
    let s = active(1_000);
    assert_eq!(s.remaining(1_000), 10_000);
    assert_eq!(s.remaining(4_500), 6_500);
    assert_eq!(s.remaining(11_000), 0);
    assert_eq!(s.remaining(20_000), 0);
}

#[test]
fn greeting_failure_ends_silently() {
    let (mut s, _) = Session::start(0);
    assert_eq!(s.step(failed()), Action::Finish);
    assert!(s.is_over());
    assert_eq!(s.ending, Some(Ending::Errored));
}

#[test]
fn greeting_phase_awaits_only_its_send() {
    let (s, _) = Session::start(0);
    assert!(s.awaits_event(&sent()));
    assert!(!s.awaits_event(&received(text("early"), 0)));
    assert!(!s.awaits_event(&Event::Elapsed));
    assert!(!s.awaits_event(&Event::CloseDone));
}

#[test]
fn text_and_binary_echoed_in_order() {
    let mut s = active(0);
    let frames = vec![text("one"), Frame::Binary(vec![0, 1, 2, 255]), text("three"), Frame::Binary(vec![])];
    let mut echoes = Vec::new();
    for (i, f) in frames.iter().enumerate() {
        match s.step(received(f.clone(), 100 * (i as u64 + 1))) {
            Action::Send(e) => echoes.push(e),
            other => panic!("expected an echo, got {:?}", other),
        }
        assert_eq!(s.step(sent()), Action::Receive);
    }
    assert_eq!(echoes, frames);
    assert_eq!(s.phase, Phase::Active);
}

#[test]
fn ping_and_pong_get_no_reply() {
    let mut s = active(0);
    assert_eq!(s.step(received(Frame::Ping(vec![1]), 10)), Action::Receive);
    assert_eq!(s.step(received(Frame::Pong(vec![2]), 20)), Action::Receive);
    assert_eq!(s.phase, Phase::Active);
}

#[test]
fn close_frame_leads_to_bye() {
    let mut s = active(0);
    assert_eq!(s.step(received(Frame::Close, 10)), Action::Send(text("Bye Bye")));
    assert_eq!(s.ending, Some(Ending::PeerClosed));
    assert_eq!(s.step(sent()), Action::Close);
    assert_eq!(s.step(Event::CloseDone), Action::Finish);
    assert!(s.is_over());
}

#[test]
fn stream_end_leads_to_bye_without_timeout_notice() {
    let mut s = active(0);
    assert_eq!(s.step(Event::Ended), Action::Send(text("Bye Bye")));
    assert_eq!(s.phase, Phase::Closing);
    assert_eq!(s.ending, Some(Ending::PeerClosed));
}

#[test]
fn failed_echo_leads_to_bye() {
    let mut s = active(0);
    assert_eq!(s.step(received(text("x"), 10)), Action::Send(text("x")));
    assert_eq!(s.step(failed()), Action::Send(text("Bye Bye")));
    assert_eq!(s.ending, Some(Ending::Errored));
}

#[test]
fn failed_bye_skips_close_handshake() {
    let mut s = active(0);
    assert_eq!(s.step(Event::Ended), Action::Send(text("Bye Bye")));
    assert_eq!(s.step(failed()), Action::Finish);
    assert!(s.is_over());
}

#[test]
fn failed_timeout_notice_still_sends_bye() {
    let mut s = active(0);
    assert_eq!(s.step(Event::Elapsed), Action::Send(text("Timeout expired")));
    assert_eq!(s.step(failed()), Action::Send(text("Bye Bye")));
    assert_eq!(s.phase, Phase::Closing);
}

#[test]
fn silent_peer_gets_one_timeout_notice() {
    let mut s = active(0);
    let mut actions = Vec::new();
    actions.push(s.step(Event::Elapsed));
    actions.push(s.step(sent()));
    actions.push(s.step(sent()));
    actions.push(s.step(Event::CloseDone));
    assert_eq!(
        actions,
        vec![Action::Send(text("Timeout expired")), Action::Send(text("Bye Bye")), Action::Close, Action::Finish]
    );
}

#[test]
fn deadline_not_refreshed_by_traffic() {
    let mut s = active(0);
    let mut echoed = 0;
    let mut timed_out_at = None;
    for second in 1..=15u64 {
        let at = second * 1_000;
        match s.step(received(text("tick"), at)) {
            Action::Send(Frame::Text(t)) if t == "tick" => {
                echoed += 1;
                assert_eq!(s.step(sent()), Action::Receive);
            }
            Action::Send(Frame::Text(t)) => {
                assert_eq!(t, "Timeout expired");
                timed_out_at = Some(at);
                break;
            }
            other => panic!("unexpected {:?}", other),
        }
    }
    assert_eq!(echoed, 9);
    assert_eq!(timed_out_at, Some(10_000));
    assert_eq!(s.deadline, 10_000);
    assert_eq!(s.ending, Some(Ending::TimedOut));
}

#[test]
fn oversized_frame_is_not_echoed() {
    let mut s = active(0);
    let big = "a".repeat(MAX_MESSAGE_SIZE + 1);
    assert_eq!(s.step(received(Frame::Text(big), 10)), Action::Send(text("Bye Bye")));
    assert_eq!(s.ending, Some(Ending::Errored));

    let mut s = active(0);
    let big = vec![7u8; 2_000];
    assert_eq!(s.step(received(Frame::Binary(big), 10)), Action::Send(text("Bye Bye")));
}

#[test]
fn frame_at_size_bound_is_echoed() {
    let mut s = active(0);
    let fits = vec![1u8; MAX_MESSAGE_SIZE];
    assert_eq!(s.step(received(Frame::Binary(fits.clone()), 10)), Action::Send(Frame::Binary(fits)));
}

#[test]
fn frame_size_counts_utf8_bytes() {
    assert_eq!(text("héllo").size(), 6);
    assert_eq!(Frame::Binary(vec![1, 2, 3]).size(), 3);
    assert_eq!(Frame::Close.size(), 0);
    let mut s = active(0);
    // 342 three-byte characters: 1026 bytes, though only 342 characters.
    let wide = "€".repeat(342);
    assert_eq!(s.step(received(Frame::Text(wide), 10)), Action::Send(text("Bye Bye")));
}

#[test]
fn awaits_event_follows_phase() {
    let mut s = active(0);
    assert!(s.awaits_event(&Event::Elapsed));
    assert!(s.awaits_event(&Event::Ended));
    assert!(!s.awaits_event(&sent()));
    s.step(Event::Ended);
    assert!(s.awaits_event(&failed()));
    s.step(sent());
    assert!(s.awaits_event(&Event::CloseDone));
    s.step(Event::CloseDone);
    assert!(!s.awaits_event(&Event::CloseDone));
    assert!(!s.awaits_event(&sent()));
}
