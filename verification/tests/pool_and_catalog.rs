use argon::accountdb::ACCOUNT as Stored;
use argon::catalog::{parse_games, search_answer, PageCollector, PageNext, GAME};
use argon::json::{to_json_text, JsonValue};
use argon::pool::{backoff_secs, dispatch, stock_need, Dispatch, Stock, Worker, WorkerStep, ACCOUNT};
use argon::probe::{probe_entry, probe_playable, GameProbe};

fn parse(s: &str) -> JsonValue {
    JsonValue::parse(s.as_bytes()).expect("valid json")
}

#[test]
fn pool_account_parts() {
    let a = ACCOUNT::new("tok".to_string(), "sn".to_string(), "e".to_string(), "p".to_string(), "id".to_string());
    assert_eq!(a.public_id(), Some("id"));
    assert_eq!(a.into_parts(), (Some("sn".to_string()), Some("tok".to_string())));
    let s = ACCOUNT::stub("id2".to_string());
    assert_eq!(s.public_id(), Some("id2"));
    assert_eq!(s.into_parts(), (None, None));
}

fn stored(id: &str) -> Stored {
    Stored { sn: "s".to_string(), token: "t".to_string(), email: "e".to_string(), password: "p".to_string(), public_id: id.to_string() }
}

#[test]
fn stock_is_first_in_first_out() {
    let mut stock = Stock::load(vec![stored("a"), stored("b")]);
    assert_eq!(stock.len(), 2);
    stock.push_back(ACCOUNT::stub("c".to_string()));
    assert_eq!(stock.pop_front().unwrap().public_id(), Some("a"));
    assert_eq!(stock.pop_front().unwrap().public_id(), Some("b"));
    assert_eq!(stock.pop_front().unwrap().public_id(), Some("c"));
    assert!(stock.pop_front().is_none());
    assert_eq!(stock.len(), 0);
}

#[test]
fn worker_dispatch_limits() {
    assert_eq!(dispatch(0), Dispatch::Start);
    assert_eq!(dispatch(2), Dispatch::Start);
    assert_eq!(dispatch(3), Dispatch::StartMany);
    assert_eq!(dispatch(9), Dispatch::StartMany);
    assert_eq!(dispatch(10), Dispatch::StartTooMany);
    assert_eq!(dispatch(39), Dispatch::StartTooMany);
    assert_eq!(dispatch(40), Dispatch::Refuse);
    assert_eq!(dispatch(255), Dispatch::Refuse);
}

#[test]
fn need_and_backoff() {
    assert_eq!(stock_need(10, 3, 2), 5);
    assert_eq!(stock_need(10, 12, 0), 0);
    assert_eq!(stock_need(10, 8, 5), 0);
    let pauses: Vec<u64> = (0..8).map(backoff_secs).collect();
    assert_eq!(pauses, vec![3, 6, 12, 24, 48, 60, 60, 60]);
}

#[test]
fn worker_rounds() {
    let mut w = Worker::new();
    assert_eq!(w.next_step(1), WorkerStep::Build);
    assert_eq!(w.build_failed(), 6);
    assert_eq!(w.build_failed(), 12);
    w.built();
    assert_eq!(w.consecutive_fails, 0);
    for _ in 0..59 {
        assert_eq!(w.next_step(0), WorkerStep::Idle);
    }
    assert_eq!(w.next_step(0), WorkerStep::Exit);
    let mut w = Worker::new();
    w.next_step(0);
    assert_eq!(w.next_step(3), WorkerStep::Build);
    assert_eq!(w.idle_cycles, 0);
}

#[test]
fn games_from_a_listing() {
    let list = parse(r#"[
        {"id":1,"game_name":"A","game_main_img":"m","game_recommend_img":"r","game_icon":"i"},
        {"id":2,"game_name":"B"},
        {"id":3,"game_name":"C","game_main_img":"m3","game_recommend_img":"r3","game_icon":"i3"}
    ]"#);
    let items = match list { JsonValue::Array(v) => v, _ => unreachable!() };
    let games = parse_games(&items);
    assert_eq!(games.len(), 2);
    assert_eq!(games[0].id, 1);
    assert_eq!(games[1].name, "C");
    let answer = search_answer(&games);
    assert_eq!(
        to_json_text(&answer),
        r#"[{"game_icon":"i","game_recommend_img":"r","id":1,"main_img":"m","name":"A"},{"game_icon":"i3","game_recommend_img":"r3","id":3,"main_img":"m3","name":"C"}]"#
    );
}

#[test]
fn search_answer_matches_serde() {
    let g = GAME { id: 9, name: "N".to_string(), main_img: "a".to_string(), game_recommend_img: "b".to_string(), game_icon: "c".to_string() };
    assert_eq!(
        to_json_text(&search_answer(&vec![g])),
        r#"[{"game_icon":"c","game_recommend_img":"b","id":9,"main_img":"a","name":"N"}]"#
    );
}

#[test]
fn pages_are_gathered_without_repeats() {
    let mut c = PageCollector::new();
    assert_eq!(c.page, 1);
    let p1 = parse(r#"{"data":{"total":4,"data":[{"id":1},{"id":2},{"x":0}]}}"#);
    assert_eq!(c.on_page(&p1), PageNext::Fetch(2));
    let p2 = parse(r#"{"data":{"total":4,"data":[{"id":2},{"id":3}]}}"#);
    assert_eq!(c.on_page(&p2), PageNext::Fetch(3));
    let p3 = parse(r#"{"data":{"total":4,"data":[{"id":4}]}}"#);
    assert_eq!(c.on_page(&p3), PageNext::Done);
    let ids: Vec<String> = c.all.iter().map(to_json_text).collect();
    assert_eq!(ids, vec![r#"{"id":1}"#, r#"{"id":2}"#, r#"{"id":3}"#, r#"{"id":4}"#]);
}

#[test]
fn paging_stops() {
    let mut c = PageCollector::new();
    assert_eq!(c.on_page(&parse(r#"{"data":{}}"#)), PageNext::Done);
    assert_eq!(c.on_page(&parse(r#"{"data":{"data":[]}}"#)), PageNext::Done);
    // No total: as many as zero were wanted, so the first page ends it.
    assert_eq!(c.on_page(&parse(r#"{"data":{"data":[{"id":1}]}}"#)), PageNext::Done);
    let mut c = PageCollector::new();
    c.page = 500;
    assert_eq!(c.on_page(&parse(r#"{"data":{"total":100,"data":[{"id":1}]}}"#)), PageNext::Done);
    assert_eq!(c.page, 501);
}

#[test]
fn probe_outcomes() {
    assert!(probe_playable(Some(&parse(r#"{"status":200}"#))));
    assert!(!probe_playable(Some(&parse(r#"{"status":4623}"#))));
    assert!(!probe_playable(Some(&parse(r#"{}"#))));
    assert!(!probe_playable(None));
    let g = GameProbe { name: "n".to_string(), game_key: "k".to_string(), playable: false };
    let e = probe_entry(g, Some(&parse(r#"{"status":200}"#)));
    assert!(e.playable);
    assert_eq!(e.game_key, "k");
}
