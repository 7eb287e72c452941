use argon::json::JsonValue;
use argon::signal::{
    offer_message, ping_message, register_message, register_token, start_game_message,
    SignalAction, SignalClock, SignalError, SignalSession, POST_ANSWER_GRACE_MS,
    SIGNAL_DEADLINE_MS,
};

fn parse(s: &str) -> JsonValue {
    JsonValue::parse(s.as_bytes()).expect("valid json")
}

#[test]
fn outgoing_messages_are_the_json_the_node_expects() {
    assert_eq!(
        register_message("sn1", "tok"),
        r#"{"id":"register","token":"tok","type":"webUA","uid":"sn1"}"#
    );
    let sc = parse("42");
    assert_eq!(
        ping_message("sn1", &sc),
        r#"{"id":"ping","sc_id":42,"status":"gaming","type":"webUA","uid":"sn1"}"#
    );
    let cfg = parse(r#"{"w":1280,"h":720}"#);
    assert_eq!(
        start_game_message("sn1", "node", &sc, &cfg),
        r#"{"body":{"force_soft_dec":0,"game_name":null,"joystick_num":2,"session_id":42,"sn_user_id":"sn1"},"from":"sn1","game_args":"","gp_num":0,"id":"start_game","play_config":{"h":720,"w":1280},"simpleHandler":null,"to":"node"}"#
    );
    assert_eq!(
        offer_message("sn1", "node", "v=0\r\n"),
        r#"{"body":{"sdp":"v=0\r\n","type":"offer"},"from":"sn1","id":"rtc_sdp","to":"node"}"#
    );
}

#[test]
fn register_token_is_percent_decoded() {
    assert_eq!(register_token("a%20b%2Bc+d"), "a b+c+d");
    assert_eq!(register_token("plain"), "plain");
    assert_eq!(register_token("50%"), "50%");
    assert_eq!(register_token("%zz%4"), "%zz%4");
    assert_eq!(register_token("bad%FF"), "bad%FF");
}

#[test]
fn exchange_runs_register_start_offer_answer() {
    let mut s = SignalSession::new(1_000);
    assert_eq!(s.deadline, 1_000 + SIGNAL_DEADLINE_MS);
    assert_eq!(s.on_message(&parse(r#"{"id":"register_ack","code":500}"#), "node", 1_100), SignalAction::Nothing);
    assert_eq!(s.on_message(&parse(r#"{"id":"register_ack","code":200}"#), "node", 1_200), SignalAction::StartGame);
    assert!(s.started);
    assert_eq!(s.on_message(&parse(r#"{"id":"register_ack","code":200}"#), "node", 1_300), SignalAction::Nothing);
    assert_eq!(s.on_message(&parse(r#"{"id":"start_game","from":"other","body":{"code":200}}"#), "node", 1_400), SignalAction::Nothing);
    assert_eq!(s.on_message(&parse(r#"{"id":"start_game","from":"node","body":{"code":200}}"#), "node", 1_500), SignalAction::SendOffer);
    assert_eq!(s.on_message(&parse(r#"{"id":"rtc_sdp","body":{"type":"candidate","sdp":"c1"}}"#), "node", 1_600), SignalAction::Nothing);
    assert_eq!(s.on_message(&parse(r#"{"id":"rtc_sdp","body":{"type":"candidate","sdp":7}}"#), "node", 1_650), SignalAction::Nothing);
    assert_eq!(s.check_clock(1_700), SignalClock::Continue);
    assert_eq!(s.on_message(&parse(r#"{"id":"rtc_sdp","body":{"type":"answer","sdp":"v=0\r\n"}}"#), "node", 2_000), SignalAction::Nothing);
    assert_eq!(s.answered_at, Some(2_000));
    assert_eq!(s.on_message(&parse(r#"{"id":"rtc_sdp","body":{"type":"candidate","sdp":"c2"}}"#), "node", 2_100), SignalAction::Nothing);
    assert_eq!(s.check_clock(2_000 + POST_ANSWER_GRACE_MS), SignalClock::Continue);
    assert_eq!(s.check_clock(2_001 + POST_ANSWER_GRACE_MS), SignalClock::Finished);
    let rtcs = s.finish().unwrap();
    // The answer is the JSON text of the `sdp` member, quotes and escapes included.
    assert_eq!(rtcs.answer, "\"v=0\\r\\n\"");
    assert_eq!(rtcs.candidates, vec!["c1".to_string(), "c2".to_string()]);
}

#[test]
fn exchange_times_out_and_needs_an_answer() {
    let s = SignalSession::new(0);
    assert_eq!(s.check_clock(SIGNAL_DEADLINE_MS), SignalClock::Continue);
    assert_eq!(s.check_clock(SIGNAL_DEADLINE_MS + 1), SignalClock::TimedOut);
    assert_eq!(s.finish().unwrap_err(), SignalError::NoAnswer);
}
