//! The signalling exchange with the game node over its websocket: register,
//! start the game, send the SDP offer, collect the answer and the ICE
//! candidates. The socket itself is driven by the caller; this module says
//! what to send and when the exchange is over.
use vstd::prelude::*;
use crate::gameplay::Rtcs;
use crate::json::{
    as_str, as_u64, entries_view, get, json_text, key, member, object, str_of, text_value,
    to_json_text, u64_of, JsonValue, JsonView,
};

verus! {

broadcast use {vstd::seq::group_seq_axioms, vstd::std_specs::vec::group_vec_axioms};

/// How long the whole exchange may take, in milliseconds.
pub const SIGNAL_DEADLINE_MS: u64 = 45_000;

/// How long to keep collecting candidates after the answer, in milliseconds.
pub const POST_ANSWER_GRACE_MS: u64 = 3_000;

/// What `urlencoding::decode` gives: `%` followed by two hexadecimal digits
/// stands for that byte, everything else (a lone `%` too) stands for itself;
/// the bytes must then be UTF-8.
pub open spec fn hex_value(b: u8) -> Option<u8> {
    if 48 <= b <= 57 {
        Some((b - 48) as u8)
    } else if 65 <= b <= 70 {
        Some((b - 55) as u8)
    } else if 97 <= b <= 102 {
        Some((b - 87) as u8)
    } else {
        None
    }
}

pub open spec fn percent_decoded(b: Seq<u8>) -> Seq<u8>
    decreases b.len(),
{
    if b.len() == 0 {
        Seq::empty()
    } else if b[0] == 37 && b.len() >= 3 && hex_value(b[1]) is Some && hex_value(b[2]) is Some {
        seq![(hex_value(b[1]).unwrap() * 16 + hex_value(b[2]).unwrap()) as u8] + percent_decoded(
            b.skip(3),
        )
    } else {
        seq![b[0]] + percent_decoded(b.skip(1))
    }
}

pub open spec fn url_decoded(s: Seq<char>) -> Option<Seq<char>> {
    let bytes = percent_decoded(vstd::utf8::encode_utf8(s));
    if vstd::utf8::valid_utf8(bytes) {
        Some(vstd::utf8::decode_utf8(bytes))
    } else {
        None
    }
}

/// `urlencoding::decode(s)`, as an owned string. Stated: the percent
/// decoding of the crate's `decode_binary`, then UTF-8 validation.
#[verifier::external_body]
fn url_decode(s: &str) -> (r: Option<String>)
    ensures
        crate::json::owned_text(r) == url_decoded(s@),
{
    match urlencoding::decode(s) {
        Ok(t) => Some(t.into_owned()),
        Err(_) => None,
    }
}

/// The token the node expects: the signalling token, percent-decoded when
/// that gives UTF-8, else as given.
pub fn register_token(ws_token: &str) -> (r: String)
    ensures
        r@ == match url_decoded(ws_token@) {
            Some(t) => t,
            None => ws_token@,
        },
{
    match url_decode(ws_token) {
        Some(t) => t,
        None => ws_token.to_owned(),
    }
}

pub open spec fn str_view(s: Seq<char>) -> JsonView {
    JsonView::Str(s)
}

/// `{"id":"register","token":..,"type":"webUA","uid":..}` (members in the
/// key order `serde_json` keeps).
pub open spec fn spec_register_message(sn: Seq<char>, token: Seq<char>) -> JsonView {
    JsonView::Object(
        seq![
            ("id"@, str_view("register"@)),
            ("token"@, str_view(token)),
            ("type"@, str_view("webUA"@)),
            ("uid"@, str_view(sn)),
        ],
    )
}

pub fn register_message(sn: &str, token: &str) -> (r: String)
    ensures
        r@ == json_text(spec_register_message(sn@, token@)),
{
    let mut e: Vec<(String, JsonValue)> = Vec::new();
    e.push(member("id", text_value("register")));
    e.push(member("token", text_value(token)));
    e.push(member("type", text_value("webUA")));
    e.push(member("uid", text_value(sn)));
    let v = object(e);
    assert(entries_view(e@) =~= match spec_register_message(sn@, token@) {
        JsonView::Object(s) => s,
        _ => Seq::empty(),
    });
    to_json_text(&v)
}

/// `{"id":"ping","sc_id":..,"status":"gaming","type":"webUA","uid":..}`.
pub open spec fn spec_ping_message(sn: Seq<char>, sc_id: JsonView) -> JsonView {
    JsonView::Object(
        seq![
            ("id"@, str_view("ping"@)),
            ("sc_id"@, sc_id),
            ("status"@, str_view("gaming"@)),
            ("type"@, str_view("webUA"@)),
            ("uid"@, str_view(sn)),
        ],
    )
}

pub fn ping_message(sn: &str, sc_id: &JsonValue) -> (r: String)
    ensures
        r@ == json_text(spec_ping_message(sn@, sc_id@)),
{
    let mut e: Vec<(String, JsonValue)> = Vec::new();
    e.push(member("id", text_value("ping")));
    e.push(member("sc_id", sc_id.duplicate()));
    e.push(member("status", text_value("gaming")));
    e.push(member("type", text_value("webUA")));
    e.push(member("uid", text_value(sn)));
    let v = object(e);
    assert(entries_view(e@) =~= match spec_ping_message(sn@, sc_id@) {
        JsonView::Object(s) => s,
        _ => Seq::empty(),
    });
    to_json_text(&v)
}

/// The `start_game` request: from the user to the node, with the play
/// configuration and the session id.
pub open spec fn spec_start_game_message(
    sn: Seq<char>,
    gl_key: Seq<char>,
    sc_id: JsonView,
    play_config: JsonView,
) -> JsonView {
    JsonView::Object(
        seq![
            ("body"@, JsonView::Object(
                seq![
                    ("force_soft_dec"@, JsonView::PosInt(0)),
                    ("game_name"@, JsonView::Null),
                    ("joystick_num"@, JsonView::PosInt(2)),
                    ("session_id"@, sc_id),
                    ("sn_user_id"@, str_view(sn)),
                ],
            )),
            ("from"@, str_view(sn)),
            ("game_args"@, str_view(""@)),
            ("gp_num"@, JsonView::PosInt(0)),
            ("id"@, str_view("start_game"@)),
            ("play_config"@, play_config),
            ("simpleHandler"@, JsonView::Null),
            ("to"@, str_view(gl_key)),
        ],
    )
}

pub fn start_game_message(sn: &str, gl_key: &str, sc_id: &JsonValue, play_config: &JsonValue) -> (r:
    String)
    ensures
        r@ == json_text(spec_start_game_message(sn@, gl_key@, sc_id@, play_config@)),
{
    let mut b: Vec<(String, JsonValue)> = Vec::new();
    b.push(member("force_soft_dec", JsonValue::PosInt(0)));
    b.push(member("game_name", JsonValue::Null));
    b.push(member("joystick_num", JsonValue::PosInt(2)));
    b.push(member("session_id", sc_id.duplicate()));
    b.push(member("sn_user_id", text_value(sn)));
    let body = object(b);
    let mut e: Vec<(String, JsonValue)> = Vec::new();
    e.push(member("body", body));
    e.push(member("from", text_value(sn)));
    e.push(member("game_args", text_value("")));
    e.push(member("gp_num", JsonValue::PosInt(0)));
    e.push(member("id", text_value("start_game")));
    e.push(member("play_config", play_config.duplicate()));
    e.push(member("simpleHandler", JsonValue::Null));
    e.push(member("to", text_value(gl_key)));
    let v = object(e);
    proof {
        let whole = spec_start_game_message(sn@, gl_key@, sc_id@, play_config@);
        let ws = match whole {
            JsonView::Object(s) => s,
            _ => Seq::empty(),
        };
        let bs = match ws[0].1 {
            JsonView::Object(s) => s,
            _ => Seq::empty(),
        };
        assert(entries_view(b@) =~= bs);
        assert(entries_view(e@) =~= ws);
    }
    to_json_text(&v)
}

/// The `rtc_sdp` message that carries the offer to the node.
pub open spec fn spec_offer_message(sn: Seq<char>, gl_key: Seq<char>, offer_sdp: Seq<char>) -> JsonView {
    JsonView::Object(
        seq![
            ("body"@, JsonView::Object(
                seq![("sdp"@, str_view(offer_sdp)), ("type"@, str_view("offer"@))],
            )),
            ("from"@, str_view(sn)),
            ("id"@, str_view("rtc_sdp"@)),
            ("to"@, str_view(gl_key)),
        ],
    )
}

pub fn offer_message(sn: &str, gl_key: &str, offer_sdp: &str) -> (r: String)
    ensures
        r@ == json_text(spec_offer_message(sn@, gl_key@, offer_sdp@)),
{
    let mut b: Vec<(String, JsonValue)> = Vec::new();
    b.push(member("sdp", text_value(offer_sdp)));
    b.push(member("type", text_value("offer")));
    let body = object(b);
    let mut e: Vec<(String, JsonValue)> = Vec::new();
    e.push(member("body", body));
    e.push(member("from", text_value(sn)));
    e.push(member("id", text_value("rtc_sdp")));
    e.push(member("to", text_value(gl_key)));
    let v = object(e);
    proof {
        let ws = match spec_offer_message(sn@, gl_key@, offer_sdp@) {
            JsonView::Object(s) => s,
            _ => Seq::empty(),
        };
        let bs = match ws[0].1 {
            JsonView::Object(s) => s,
            _ => Seq::empty(),
        };
        assert(entries_view(b@) =~= bs);
        assert(entries_view(e@) =~= ws);
    }
    to_json_text(&v)
}


/// What to send in reply to a message from the node.
#[derive(Debug, PartialEq, Eq, Structural)]
pub enum SignalAction {
    Nothing,
    /// Send the `start_game` request.
    StartGame,
    /// Send the SDP offer.
    SendOffer,
}

/// Where the exchange stands on the clock.
#[derive(Debug, PartialEq, Eq, Structural)]
pub enum SignalClock {
    Continue,
    /// The deadline passed.
    TimedOut,
    /// The grace period after the answer is over.
    Finished,
}

/// Why the exchange gave no usable result.
#[derive(Debug, PartialEq, Eq, Structural)]
pub enum SignalError {
    /// The deadline passed before the exchange finished.
    TimedOut,
    /// The node closed the socket before the exchange finished.
    Closed,
    /// The exchange ended without an SDP answer.
    NoAnswer,
}

/// The state of one signalling exchange. Times are milliseconds on the
/// caller's monotonic clock.
#[derive(Debug)]
pub struct SignalSession {
    pub started: bool,
    pub answer: Option<String>,
    pub candidates: Vec<String>,
    pub answered_at: Option<u64>,
    pub deadline: u64,
}

pub struct SignalView {
    pub started: bool,
    pub answer: Option<Seq<char>>,
    pub candidates: Seq<Seq<char>>,
    pub answered_at: Option<u64>,
    pub deadline: u64,
}

impl View for SignalSession {
    type V = SignalView;

    open spec fn view(&self) -> SignalView {
        SignalView {
            started: self.started,
            answer: crate::json::owned_text(self.answer),
            candidates: self.candidates@.map_values(|c: String| c@),
            answered_at: self.answered_at,
            deadline: self.deadline,
        }
    }
}

/// The state after a message from the node, and what to send back.
pub open spec fn signal_step(s: SignalView, data: JsonView, gl_key: Seq<char>, now: u64) -> (
    SignalView,
    SignalAction,
) {
    let id = as_str(get(data, "id"@));
    let body = get(data, "body"@);
    if id == Some("register_ack"@) {
        if as_u64(get(data, "code"@)) == Some(200u64) && !s.started {
            (SignalView { started: true, ..s }, SignalAction::StartGame)
        } else {
            (s, SignalAction::Nothing)
        }
    } else if id == Some("start_game"@) {
        if as_str(get(data, "from"@)) == Some(gl_key) && as_u64(get(body, "code"@)) == Some(200u64) {
            (s, SignalAction::SendOffer)
        } else {
            (s, SignalAction::Nothing)
        }
    } else if id == Some("rtc_sdp"@) {
        let kind = as_str(get(body, "type"@));
        if kind == Some("answer"@) {
            (
                SignalView {
                    answer: Some(json_text(get(body, "sdp"@))),
                    answered_at: Some(now),
                    ..s
                },
                SignalAction::Nothing,
            )
        } else if kind == Some("candidate"@) {
            match as_str(get(body, "sdp"@)) {
                Some(c) => (SignalView { candidates: s.candidates.push(c), ..s }, SignalAction::Nothing),
                None => (s, SignalAction::Nothing),
            }
        } else {
            (s, SignalAction::Nothing)
        }
    } else {
        (s, SignalAction::Nothing)
    }
}

/// Where the clock stands: past the deadline it is over; after the grace period
/// that follows the answer the exchange is done.
pub open spec fn signal_clock(s: SignalView, now: u64) -> SignalClock {
    if now > s.deadline {
        SignalClock::TimedOut
    } else {
        match s.answered_at {
            Some(t) => if now - t > POST_ANSWER_GRACE_MS {
                SignalClock::Finished
            } else {
                SignalClock::Continue
            },
            None => SignalClock::Continue,
        }
    }
}

impl SignalSession {
    /// A fresh exchange that began at `now`.
    pub fn new(now: u64) -> (r: SignalSession)
        requires
            now + SIGNAL_DEADLINE_MS <= u64::MAX,
        ensures
            !r@.started,
            r@.answer is None,
            r@.candidates == Seq::<Seq<char>>::empty(),
            r@.answered_at is None,
            r@.deadline == now + SIGNAL_DEADLINE_MS,
    {
        let r = SignalSession {
            started: false,
            answer: None,
            candidates: Vec::new(),
            answered_at: None,
            deadline: now + SIGNAL_DEADLINE_MS,
        };
        assert(r@.candidates =~= Seq::<Seq<char>>::empty());
        r
    }

    /// Whether to go on waiting at `now`.
    pub fn check_clock(&self, now: u64) -> (r: SignalClock)
        ensures
            r == signal_clock(self@, now),
    {
        if now > self.deadline {
            return SignalClock::TimedOut;
        }
        match self.answered_at {
            Some(t) => {
                if now.saturating_sub(t) > POST_ANSWER_GRACE_MS {
                    SignalClock::Finished
                } else {
                    SignalClock::Continue
                }
            },
            None => SignalClock::Continue,
        }
    }

    /// Takes in one message of the node, received at `now`.
    pub fn on_message(&mut self, data: &JsonValue, gl_key: &str, now: u64) -> (r: SignalAction)
        ensures
            (final(self)@, r) == signal_step(old(self)@, data@, gl_key@, now),
    {
        let d = Some(data);
        let body = key(d, "body");
        let id = str_of(key(d, "id"));
        let id_is = |t: &str| -> (b: bool)
            ensures
                b == (crate::json::opt_text(id) == Some(t@)),
            {
                match id {
                    Some(x) => crate::json::same_text(x, t),
                    None => false,
                }
            };
        if id_is("register_ack") {
            if u64_of(key(d, "code")) == Some(200u64) && !self.started {
                self.started = true;
                SignalAction::StartGame
            } else {
                SignalAction::Nothing
            }
        } else if id_is("start_game") {
            let from_node = match str_of(key(d, "from")) {
                Some(f) => crate::json::same_text(f, gl_key),
                None => false,
            };
            if from_node && u64_of(key(body, "code")) == Some(200u64) {
                SignalAction::SendOffer
            } else {
                SignalAction::Nothing
            }
        } else if id_is("rtc_sdp") {
            let kind = str_of(key(body, "type"));
            let is_answer = match kind {
                Some(k) => crate::json::same_text(k, "answer"),
                None => false,
            };
            let is_candidate = match kind {
                Some(k) => crate::json::same_text(k, "candidate"),
                None => false,
            };
            let sdp = key(body, "sdp");
            if is_answer {
                let text = match sdp {
                    Some(v) => to_json_text(v),
                    None => to_json_text(&JsonValue::Null),
                };
                self.answer = Some(text);
                self.answered_at = Some(now);
                SignalAction::Nothing
            } else if is_candidate {
                match str_of(sdp) {
                    Some(c) => {
                        let ghost before = self.candidates@;
                        self.candidates.push(c.clone());
                        assert(self.candidates@.map_values(|x: String| x@) =~= before.map_values(
                            |x: String| x@,
                        ).push(c@));
                        SignalAction::Nothing
                    },
                    None => SignalAction::Nothing,
                }
            } else {
                SignalAction::Nothing
            }
        } else {
            SignalAction::Nothing
        }
    }

    /// The result once the exchange is over: the answer and the candidates
    /// gathered, or an error when no answer came.
    pub fn finish(self) -> (r: Result<Rtcs, SignalError>)
        ensures
            match r {
                Ok(rtcs) => self@.answer == Some(rtcs.answer@) && rtcs.candidates@.map_values(
                    |c: String| c@,
                ) == self@.candidates,
                Err(e) => self@.answer is None && e == SignalError::NoAnswer,
            },
    {
        match self.answer {
            Some(answer) => Ok(Rtcs { answer, candidates: self.candidates }),
            None => Err(SignalError::NoAnswer),
        }
    }
}

} // verus!
