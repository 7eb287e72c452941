use argon::accountdb::{new_public_id, AccountDb, PlaySession, PublicAccount, ACCOUNT};
use argon::api::{
    account_reply, play_admission, play_outcome, queue_lookup, queue_outcome, ApiError,
    PlayRequest,
};
use argon::gameplay::{PlayFinish, PlayStart, Rtcs};
use argon::probe::GameProbe;

fn stored(id: &str) -> ACCOUNT {
    ACCOUNT {
        sn: format!("sn-{id}"),
        token: format!("tok-{id}"),
        email: format!("{id}@mail"),
        password: "pw".to_string(),
        public_id: id.to_string(),
    }
}

fn session(q: &str) -> PlaySession {
    PlaySession { game_key: "kj0529".to_string(), offer_sdp: "offer".to_string(), queue_id: q.to_string(), created_at: 5 }
}

#[test]
fn public_part_of_an_account() {
    let a = stored("p1");
    let p = PublicAccount::from(&a);
    assert_eq!(p.email, "p1@mail");
    assert_eq!(p.password, "pw");
    assert_eq!(p.public_id, "p1");
}

#[test]
fn pop_then_active_then_consume() {
    let mut db = AccountDb::new();
    assert!(db.pop_account("p1", None, 10).is_none());
    assert!(db.active("p1").is_none());
    let p = db.pop_account("p1", Some(stored("p1")), 10).unwrap();
    assert_eq!(p.email, "p1@mail");
    let a = db.active("p1").unwrap();
    assert_eq!(a.sn, "sn-p1");
    assert_eq!(a.token, "tok-p1");
    assert_eq!(a.created_at, 10);
    assert!(db.consume("p1"));
    assert!(!db.consume("p1"));
    assert!(db.active("p1").is_none());
}

#[test]
fn sessions_read_back_and_delete() {
    let mut db = AccountDb::new();
    db.put_session("p1", &session("q1"), 99);
    let s = db.get_session("p1").unwrap();
    assert_eq!(s.queue_id, "q1");
    assert_eq!(s.created_at, 99);
    db.put_session("p1", &session("q2"), 100);
    assert_eq!(db.get_session("p1").unwrap().queue_id, "q2");
    db.delete_session("p1");
    assert!(db.get_session("p1").is_none());
}

#[test]
fn sweep_drops_what_is_an_hour_old() {
    let mut db = AccountDb::new();
    db.pop_account("old", Some(stored("old")), 0);
    db.pop_account("new", Some(stored("new")), 3_000_000);
    db.put_session("old", &session("q"), 1);
    db.put_session("new", &session("q"), 3_600_000);
    assert_eq!(db.sweep_stale(3_600_001), 2);
    assert!(db.active("old").is_none());
    assert!(db.active("new").is_some());
    assert!(db.get_session("old").is_none());
    assert!(db.get_session("new").is_some());
    assert_eq!(db.sweep_stale(3_600_001), 0);
}

#[test]
fn playable_checks() {
    let g = GameProbe { name: "n".to_string(), game_key: "k".to_string(), playable: true };
    assert!(AccountDb::is_playable(Some(&g)));
    assert!(!AccountDb::is_playable(None));
    let games = vec![
        g,
        GameProbe { name: "m".to_string(), game_key: "l".to_string(), playable: false },
        GameProbe { name: "o".to_string(), game_key: "p".to_string(), playable: true },
    ];
    assert_eq!(AccountDb::playable_games(&games), 2);
}

#[test]
fn public_id_is_sha256_hex() {
    // SHA-256 of "abc".
    assert_eq!(
        new_public_id("ab", "c"),
        "ba7816bf8f01cfea414140de5dae2223b00361a396177a9cb410ff61f20015ad"
    );
    assert_eq!(new_public_id("a", "bc"), new_public_id("ab", "c"));
    assert_eq!(new_public_id("x", "y").len(), 64);
}

#[test]
fn account_endpoint() {
    let mut db = AccountDb::new();
    assert_eq!(account_reply(&mut db, "p1", None, 1).unwrap_err(), ApiError { status: 503, retry_after: 30 });
    let p = account_reply(&mut db, "p1", Some(stored("p1")), 1).unwrap();
    assert_eq!(p.public_id, "p1");
    assert!(db.active("p1").is_some());
}

fn request() -> PlayRequest {
    PlayRequest { public_id: "p1".to_string(), game_key: "kj0529".to_string(), offer_sdp: "offer".to_string() }
}

#[test]
fn play_endpoint_checks() {
    let mut db = AccountDb::new();
    assert_eq!(play_admission(&db, "p1", true, None).unwrap_err(), ApiError { status: 500, retry_after: 30 });
    assert_eq!(play_admission(&db, "p1", true, Some(false)).unwrap_err(), ApiError { status: 403, retry_after: 30 });
    assert_eq!(play_admission(&db, "p1", false, Some(false)).unwrap_err(), ApiError { status: 404, retry_after: 30 });
    db.pop_account("p1", Some(stored("p1")), 1);
    assert_eq!(play_admission(&db, "p1", true, Some(true)).unwrap().sn, "sn-p1");
    assert_eq!(play_admission(&db, "p1", false, None).unwrap().token, "tok-p1");
}

#[test]
fn ready_play_uses_up_the_account() {
    let mut db = AccountDb::new();
    db.pop_account("p1", Some(stored("p1")), 1);
    let rtcs = Rtcs { answer: "ans".to_string(), candidates: vec!["c".to_string()] };
    let r = play_outcome(&mut db, &request(), Some(PlayStart::Ready(rtcs)), 2).unwrap();
    assert_eq!(r.status, "ready");
    assert_eq!(r.position, 0);
    assert_eq!(r.answer, "ans");
    assert_eq!(r.candidates, vec!["c".to_string()]);
    assert_eq!(play_admission(&db, "p1", false, None).unwrap_err(), ApiError { status: 404, retry_after: 30 });
    assert_eq!(play_outcome(&mut db, &request(), None, 3).unwrap_err(), ApiError { status: 502, retry_after: 30 });
}

#[test]
fn queued_play_then_poll_until_ready() {
    let mut db = AccountDb::new();
    db.pop_account("p1", Some(stored("p1")), 1);
    let r = play_outcome(&mut db, &request(), Some(PlayStart::Queued { queue_id: "q9".to_string(), position: 3 }), 7).unwrap();
    assert_eq!(r.status, "queue");
    assert_eq!(r.position, 3);
    assert_eq!(r.answer, "");
    assert!(r.candidates.is_empty());
    let (s, a) = queue_lookup(&db, "p1").unwrap();
    assert_eq!(s.queue_id, "q9");
    assert_eq!(s.game_key, "kj0529");
    assert_eq!(s.created_at, 7);
    assert_eq!(a.sn, "sn-p1");
    let q = queue_outcome(&mut db, "p1", Some(PlayFinish::StillQueued { position: 1 })).unwrap();
    assert_eq!((q.status.as_str(), q.position), ("queue", 1));
    assert_eq!(queue_outcome(&mut db, "p1", None).unwrap_err(), ApiError { status: 502, retry_after: 10 });
    let rtcs = Rtcs { answer: "ans".to_string(), candidates: vec![] };
    let q = queue_outcome(&mut db, "p1", Some(PlayFinish::Ready(rtcs))).unwrap();
    assert_eq!(q.status, "ready");
    assert_eq!(queue_lookup(&db, "p1").unwrap_err(), ApiError { status: 404, retry_after: 10 });
}

#[test]
fn queue_lookup_needs_session_and_account() {
    let mut db = AccountDb::new();
    assert_eq!(queue_lookup(&db, "p1").unwrap_err(), ApiError { status: 404, retry_after: 10 });
    db.put_session("p1", &session("q"), 1);
    assert_eq!(queue_lookup(&db, "p1").unwrap_err(), ApiError { status: 404, retry_after: 10 });
}
