//! The HTTP interface: request and response bodies, and what each endpoint
//! answers given what the store and the game service said.
use vstd::prelude::*;
use crate::accountdb::{
    handed, public_part, spec_put_session, AccountDb, ActiveView, ActiveAccount, PlaySession, PublicAccount,
    SessionView, ACCOUNT,
};
use crate::catalog::{game_json, search_answer, GAME};
use crate::gameplay::{PlayFinish, PlayStart};
use crate::json::{entries_view, member, object, text_value, JsonValue, JsonView};

verus! {

broadcast use {vstd::seq::group_seq_axioms, vstd::std_specs::vec::group_vec_axioms};

/// What `GET /api/argon/info` answers.
#[derive(Debug)]
pub struct InfoResponse {
    pub version: String,
    pub features: Vec<String>,
    pub repo: String,
    pub contributors: Vec<String>,
}

pub fn info_response() -> (r: InfoResponse)
    ensures
        r.version@ == "0.1.5"@,
        r.features@.map_values(|f: String| f@) == seq![
            "Mail endpoints work"@,
            "Raccoon registration"@,
            "Search through games"@,
        ],
        r.repo@ == "https://github.com/ViktoriusOnTop/argon"@,
        r.contributors@.map_values(|c: String| c@) == seq!["ViktoriusOnTop"@],
{
    let mut features: Vec<String> = Vec::new();
    features.push("Mail endpoints work".to_owned());
    features.push("Raccoon registration".to_owned());
    features.push("Search through games".to_owned());
    let mut contributors: Vec<String> = Vec::new();
    contributors.push("ViktoriusOnTop".to_owned());
    let r = InfoResponse {
        version: "0.1.5".to_owned(),
        features,
        repo: "https://github.com/ViktoriusOnTop/argon".to_owned(),
        contributors,
    };
    assert(r.features@.map_values(|f: String| f@) =~= seq![
        "Mail endpoints work"@,
        "Raccoon registration"@,
        "Search through games"@,
    ]);
    assert(r.contributors@.map_values(|c: String| c@) =~= seq!["ViktoriusOnTop"@]);
    r
}

/// An HTTP error answer: the status code and the `Retry-After` seconds.
#[derive(Debug, PartialEq, Eq, Structural)]
pub struct ApiError {
    pub status: u16,
    pub retry_after: u32,
}

/// The body of `POST /api/raccoon/play`.
#[derive(Debug)]
pub struct PlayRequest {
    pub public_id: String,
    pub game_key: String,
    pub offer_sdp: String,
}

/// The answer of the play endpoint: `ready` with the SDP answer and the
/// candidates, or `queue` with the position.
#[derive(Debug)]
pub struct PlayResponse {
    pub status: String,
    pub position: u64,
    pub answer: String,
    pub candidates: Vec<String>,
}

/// The query of `GET /api/raccoon/queue`.
#[derive(Debug)]
pub struct QueueParams {
    pub public_id: String,
}

/// The answer of the queue endpoint, shaped as the play answer.
#[derive(Debug)]
pub struct QueueResponse {
    pub status: String,
    pub position: u64,
    pub answer: String,
    pub candidates: Vec<String>,
}

/// The query of `GET /api/raccoon/search`.
#[derive(Debug)]
pub struct PooPooPeePeeParams {
    pub q: String,
}

/// The answer of the search endpoint.
#[derive(Debug)]
pub struct PooPooPeePeeResponse {
    pub answer: JsonValue,
}

/// The account endpoint's error: no account can be handed out now.
pub fn unavailable() -> (r: ApiError)
    ensures
        r == (ApiError { status: 503, retry_after: 30 }),
{
    ApiError { status: 503, retry_after: 30 }
}

/// `GET /api/raccoon/account` once an account was taken from the pool: the
/// stored account read under its public id is handed out, stamped `now`;
/// none stored means 503 (and the caller puts the pool account back).
pub fn account_reply(db: &mut AccountDb, public_id: &str, stored: Option<ACCOUNT>, now: u64) -> (r:
    Result<PublicAccount, ApiError>)
    requires
        old(db).wf(),
    ensures
        final(db).wf(),
        final(db).session_map() == old(db).session_map(),
        stored is None ==> r == Err::<PublicAccount, ApiError>(ApiError { status: 503, retry_after: 30 }) && final(db).active_map()
            == old(db).active_map(),
        stored matches Some(a) ==> (r matches Ok(p) && p@ == public_part(a@) && final(db).active_map()
            == old(db).active_map().insert(public_id@, handed(public_id@, a@, now))),
{
    match db.pop_account(public_id, stored, now) {
        Some(p) => Ok(p),
        None => Err(unavailable()),
    }
}

/// What the play endpoint's checks decide, over the handed-out accounts.
pub open spec fn spec_admission(
    active: Map<Seq<char>, ActiveView>,
    public_id: Seq<char>,
    probed: bool,
    playable: Option<bool>,
) -> Result<ActiveView, ApiError> {
    if probed && playable is None {
        Err(ApiError { status: 500, retry_after: 30 })
    } else if probed && playable == Some(false) {
        Err(ApiError { status: 403, retry_after: 30 })
    } else if !active.contains_key(public_id) {
        Err(ApiError { status: 404, retry_after: 30 })
    } else {
        Ok(active[public_id])
    }
}

pub open spec fn active_result(r: Result<ActiveAccount, ApiError>) -> Result<ActiveView, ApiError> {
    match r {
        Ok(a) => Ok(a@),
        Err(e) => Err(e),
    }
}

/// The checks of the play endpoint before a game is started. Once the
/// catalogue was probed (`probed`), a game it does not mark playable is
/// refused (403; 500 when the catalogue could not be read, `playable` is
/// `None`). Then the account must have been handed out (else 404).
pub fn play_admission(db: &AccountDb, public_id: &str, probed: bool, playable: Option<bool>) -> (r:
    Result<ActiveAccount, ApiError>)
    ensures
        active_result(r) == spec_admission(db.active_map(), public_id@, probed, playable),
{
    if probed {
        match playable {
            None => {
                return Err(ApiError { status: 500, retry_after: 30 });
            },
            Some(false) => {
                return Err(ApiError { status: 403, retry_after: 30 });
            },
            Some(true) => {},
        }
    }
    match db.active(public_id) {
        Some(a) => Ok(a),
        None => Err(ApiError { status: 404, retry_after: 30 }),
    }
}

pub open spec fn texts(v: Seq<String>) -> Seq<Seq<char>> {
    v.map_values(|s: String| s@)
}

/// The play endpoint's answer to how the start went (`None`: it failed,
/// 502). A ready stream uses up the account; a queued one is remembered
/// as a session stamped `now`.
pub fn play_outcome(db: &mut AccountDb, req: &PlayRequest, start: Option<PlayStart>, now: u64) -> (r:
    Result<PlayResponse, ApiError>)
    requires
        old(db).wf(),
    ensures
        final(db).wf(),
        match start {
            None => r == Err::<PlayResponse, ApiError>(ApiError { status: 502, retry_after: 30 })
                && final(db).active_map() == old(db).active_map() && final(db).session_map()
                == old(db).session_map(),
            Some(PlayStart::Ready(rtcs)) => r matches Ok(p) && p.status@ == "ready"@ && p.position
                == 0 && p.answer == rtcs.answer && p.candidates == rtcs.candidates
                && final(db).active_map() == old(db).active_map().remove(req.public_id@)
                && final(db).session_map() == old(db).session_map(),
            Some(PlayStart::Queued { queue_id, position }) => r matches Ok(p) && p.status@
                == "queue"@ && p.position == position && p.answer@ == Seq::<char>::empty()
                && p.candidates@.len() == 0 && final(db).active_map() == old(db).active_map()
                && final(db).session_map() == spec_put_session(
                old(db).session_map(),
                req.public_id@,
                (SessionView {
                    game_key: req.game_key@,
                    offer_sdp: req.offer_sdp@,
                    queue_id: queue_id@,
                    created_at: 0,
                }),
                now,
            ),
        },
{
    match start {
        None => Err(ApiError { status: 502, retry_after: 30 }),
        Some(PlayStart::Ready(rtcs)) => {
            db.consume(req.public_id.as_str());
            Ok(
                PlayResponse {
                    status: "ready".to_owned(),
                    position: 0,
                    answer: rtcs.answer,
                    candidates: rtcs.candidates,
                },
            )
        },
        Some(PlayStart::Queued { queue_id, position }) => {
            let session = PlaySession {
                game_key: req.game_key.clone(),
                offer_sdp: req.offer_sdp.clone(),
                queue_id,
                created_at: 0,
            };
            db.put_session(req.public_id.as_str(), &session, now);
            Ok(
                PlayResponse {
                    status: "queue".to_owned(),
                    position,
                    answer: String::new(),
                    candidates: Vec::new(),
                },
            )
        },
    }
}

/// What the queue endpoint's checks decide.
pub open spec fn spec_queue_lookup(
    sessions: Map<Seq<char>, SessionView>,
    active: Map<Seq<char>, ActiveView>,
    public_id: Seq<char>,
) -> Result<(SessionView, ActiveView), ApiError> {
    if !sessions.contains_key(public_id) {
        Err(ApiError { status: 404, retry_after: 10 })
    } else if !active.contains_key(public_id) {
        Err(ApiError { status: 404, retry_after: 10 })
    } else {
        Ok((sessions[public_id], active[public_id]))
    }
}

pub open spec fn lookup_result(r: Result<(PlaySession, ActiveAccount), ApiError>) -> Result<
    (SessionView, ActiveView),
    ApiError,
> {
    match r {
        Ok(p) => Ok((p.0@, p.1@)),
        Err(e) => Err(e),
    }
}

/// The checks of the queue endpoint: a queued session and a handed-out
/// account must exist for the public id (else 404, retry after 10 s).
pub fn queue_lookup(db: &AccountDb, public_id: &str) -> (r: Result<
    (PlaySession, ActiveAccount),
    ApiError,
>)
    ensures
        lookup_result(r) == spec_queue_lookup(db.session_map(), db.active_map(), public_id@),
{
    let session = match db.get_session(public_id) {
        Some(s) => s,
        None => return Err(ApiError { status: 404, retry_after: 10 }),
    };
    match db.active(public_id) {
        Some(a) => Ok((session, a)),
        None => Err(ApiError { status: 404, retry_after: 10 }),
    }
}

/// The queue endpoint's answer to a poll (`None`: it failed, 502). A ready
/// stream ends the session and uses up the account.
pub fn queue_outcome(db: &mut AccountDb, public_id: &str, finish: Option<PlayFinish>) -> (r: Result<
    QueueResponse,
    ApiError,
>)
    requires
        old(db).wf(),
    ensures
        final(db).wf(),
        match finish {
            None => r == Err::<QueueResponse, ApiError>(ApiError { status: 502, retry_after: 10 })
                && final(db).active_map() == old(db).active_map() && final(db).session_map()
                == old(db).session_map(),
            Some(PlayFinish::StillQueued { position }) => r matches Ok(q) && q.status@ == "queue"@
                && q.position == position && q.answer@ == Seq::<char>::empty()
                && q.candidates@.len() == 0 && final(db).active_map() == old(db).active_map()
                && final(db).session_map() == old(db).session_map(),
            Some(PlayFinish::Ready(rtcs)) => r matches Ok(q) && q.status@ == "ready"@ && q.position
                == 0 && q.answer == rtcs.answer && q.candidates == rtcs.candidates
                && final(db).active_map() == old(db).active_map().remove(public_id@)
                && final(db).session_map() == old(db).session_map().remove(public_id@),
        },
{
    match finish {
        None => Err(ApiError { status: 502, retry_after: 10 }),
        Some(PlayFinish::StillQueued { position }) => Ok(
            QueueResponse {
                status: "queue".to_owned(),
                position,
                answer: String::new(),
                candidates: Vec::new(),
            },
        ),
        Some(PlayFinish::Ready(rtcs)) => {
            db.delete_session(public_id);
            db.consume(public_id);
            Ok(
                QueueResponse {
                    status: "ready".to_owned(),
                    position: 0,
                    answer: rtcs.answer,
                    candidates: rtcs.candidates,
                },
            )
        },
    }
}

/// A search error: the status, the `Retry-After` seconds and the JSON body.
#[derive(Debug)]
pub struct SearchError {
    pub status: u16,
    pub retry_after: u32,
    pub body: JsonValue,
}

pub open spec fn error_body(message: Seq<char>) -> JsonView {
    JsonView::Object(seq![("error"@, JsonView::Str(message))])
}

fn error_json(message: &str) -> (r: JsonValue)
    ensures
        r@ == error_body(message@),
{
    let mut e: Vec<(String, JsonValue)> = Vec::new();
    e.push(member("error", text_value(message)));
    let r = object(e);
    assert(entries_view(e@) =~= seq![("error"@, JsonView::Str(message@))]);
    r
}

/// The search endpoint without a search index: 503, retry after 300 s.
pub fn search_unavailable() -> (r: SearchError)
    ensures
        r.status == 503,
        r.retry_after == 300,
        r.body@ == error_body(
            "search unavailable, argon is running without docker or meilisearch isnt up yet"@,
        ),
{
    SearchError {
        status: 503,
        retry_after: 300,
        body: error_json(
            "search unavailable, argon is running without docker or meilisearch isnt up yet",
        ),
    }
}

/// The search endpoint when the index failed: 500, retry after 5 s.
pub fn search_failed() -> (r: SearchError)
    ensures
        r.status == 500,
        r.retry_after == 5,
        r.body@ == error_body("search failed"@),
{
    SearchError { status: 500, retry_after: 5, body: error_json("search failed") }
}

/// The search endpoint's answer for the hits of the index.
pub fn search_response(hits: &Vec<GAME>) -> (r: PooPooPeePeeResponse)
    ensures
        r.answer@ == JsonView::Array(hits@.map_values(|g: GAME| game_json(g@))),
{
    PooPooPeePeeResponse { answer: search_answer(hits) }
}

} // verus!
