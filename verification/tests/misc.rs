use argon::api::{info_response, search_failed, search_response, search_unavailable};
use argon::json::{to_json_text, JsonValue};
use argon::paths::{db_path, game_keys_path, log_dir_in_home, pool_file_path, LogDirError};
use argon::register::{generate_sn, new_phone_who_dis, registered_token, send_email_accepted};

fn parse(s: &str) -> JsonValue {
    JsonValue::parse(s.as_bytes()).expect("valid json")
}

#[test]
fn info_endpoint() {
    let i = info_response();
    assert_eq!(i.version, "0.1.5");
    assert_eq!(i.features, vec!["Mail endpoints work", "Raccoon registration", "Search through games"]);
    assert_eq!(i.repo, "https://github.com/ViktoriusOnTop/argon");
    assert_eq!(i.contributors, vec!["ViktoriusOnTop"]);
}

#[test]
fn search_errors() {
    let e = search_unavailable();
    assert_eq!((e.status, e.retry_after), (503, 300));
    assert_eq!(to_json_text(&e.body), r#"{"error":"search unavailable, argon is running without docker or meilisearch isnt up yet"}"#);
    let e = search_failed();
    assert_eq!((e.status, e.retry_after), (500, 5));
    assert_eq!(to_json_text(&e.body), r#"{"error":"search failed"}"#);
    assert_eq!(to_json_text(&search_response(&vec![]).answer), "[]");
}

#[test]
fn file_locations() {
    assert_eq!(db_path("/home/u/.argon"), "/home/u/.argon/raccoon/accounts/database");
    assert_eq!(pool_file_path("/home/u/.argon"), "/home/u/.argon/games/raccoon/pool.json");
    assert_eq!(game_keys_path("/home/u/.argon"), "/home/u/.argon/games/game_keys.json");
    assert_eq!(log_dir_in_home(Some("/home/u")), Ok("/home/u/.argon".to_string()));
    assert_eq!(log_dir_in_home(None), Err(LogDirError::NoHome));
}

#[test]
fn device_serial_and_phone() {
    let sn = generate_sn();
    assert_eq!(sn.len(), 32);
    assert!(sn.chars().all(|c| c.is_ascii_digit() || ('a'..='f').contains(&c)));
    let phone = new_phone_who_dis();
    assert_eq!(phone.len(), 10);
    assert!(phone.chars().all(|c| c.is_ascii_digit()));
}

#[test]
fn registration_replies() {
    let sn = "abc".to_string();
    assert_eq!(registered_token(&parse(r#"{"status":200,"data":{"sn":"abc","user_token":"T"}}"#), &sn), Some("T".to_string()));
    assert_eq!(registered_token(&parse(r#"{"status":200,"data":{"sn":"abd","user_token":"T"}}"#), &sn), None);
    assert_eq!(registered_token(&parse(r#"{"status":201,"data":{"sn":"abc","user_token":"T"}}"#), &sn), None);
    assert_eq!(registered_token(&parse(r#"{"status":200,"data":{"sn":"abc"}}"#), &sn), None);
    assert!(send_email_accepted(&parse(r#"{"status":200}"#)));
    assert!(!send_email_accepted(&parse(r#"{"status":"200"}"#)));
}

#[test]
fn passwords_are_fifteen_letters_or_digits() {
    let a = argon::random::new_password();
    let b = argon::random::new_password();
    assert_eq!(a.chars().count(), 15);
    assert!(a.chars().all(|c| c.is_ascii_alphanumeric()));
    assert_eq!(b.chars().count(), 15);
}

#[test]
fn serial_follows_the_draws() {
    let draws: Vec<usize> = (0..32).map(|k| k % 16).collect();
    assert_eq!(argon::register::serial_from_draws(&draws), "0123456789abcdef0123456789abcdef");
    let sevens = vec![7usize; 32];
    assert_eq!(argon::register::serial_from_draws(&sevens), "7".repeat(32));
}

#[test]
fn game_request_forms() {
    let pairs = |v: Vec<(String, String)>| -> Vec<String> { v.into_iter().map(|(k, x)| format!("{}={}", k, x)).collect() };
    let device = vec![
        "sn=S", "model=Chrome/150.0.0.0", "version_code=1", "version_name=1.0.0", "device_name=我的设备",
        "os=web", "manufacturer;=", "user_token=T",
    ];
    assert_eq!(pairs(argon::forms::device_form("S", "T")), device);
    let mut play = device.clone();
    play.extend(["game_key=kj0529", "model_name=Chrome/150.0.0.0"]);
    assert_eq!(pairs(argon::forms::play_form("S", "T", "kj0529", None)), play);
    play.push("play_queue_id=q1");
    assert_eq!(pairs(argon::forms::play_form("S", "T", "kj0529", Some("q1"))), play);
    let mut page = device.clone();
    page.extend(["page=12", "page_size=20", "game_name=", "platform=3"]);
    assert_eq!(pairs(argon::forms::page_form("S", "T", 12)), page);
}
