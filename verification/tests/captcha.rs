use argon::captcha::CaptchaError;
use argon::json::JsonValue;
use argon::{mail_gw, mail_tm, mailbox};

fn parse(s: &str) -> JsonValue {
    JsonValue::parse(s.as_bytes()).expect("valid json")
}

#[test]
fn tm_extracts_between_brackets() {
    assert_eq!(mail_tm::extract_captcha("Your code is【 123456 】, thanks".to_string()), Ok("123456".to_string()));
    assert_eq!(mail_tm::extract_captcha("a【b】c【d】".to_string()), Ok("b".to_string()));
    assert_eq!(mail_tm::extract_captcha("【】".to_string()), Ok(String::new()));
}

#[test]
fn tm_reports_missing_brackets() {
    assert_eq!(mail_tm::extract_captcha("no code here".to_string()), Err(CaptchaError::NotFound));
    assert_eq!(mail_tm::extract_captcha("open【only".to_string()), Err(CaptchaError::NotFound));
    assert_eq!(mail_tm::extract_captcha("】x【".to_string()), Err(CaptchaError::NotFound));
}

#[test]
fn gw_extracts_first_match() {
    assert_eq!(mail_gw::extract_captcha("code【 ab12 】 end"), Ok("ab12".to_string()));
    assert_eq!(mail_gw::extract_captcha("【x】【y】"), Ok("x".to_string()));
}

#[test]
fn gw_match_does_not_cross_lines() {
    assert_eq!(mail_gw::extract_captcha("【a\nb】 then【c】"), Ok("c".to_string()));
    assert_eq!(mail_gw::extract_captcha("【a\nb】"), Err(CaptchaError::NotFound));
    // The split rule of mail.tm crosses lines.
    assert_eq!(mail_tm::extract_captcha("【a\nb】".to_string()), Ok("a\nb".to_string()));
}

#[test]
fn inbox_readiness() {
    assert!(mailbox::inbox_ready(&parse(r#"{"hydra:totalItems":2}"#)));
    assert!(!mailbox::inbox_ready(&parse(r#"{"hydra:totalItems":0}"#)));
    assert!(!mailbox::inbox_ready(&parse(r#"{"hydra:totalItems":"3"}"#)));
    assert!(!mailbox::inbox_ready(&parse(r#"{}"#)));
}

#[test]
fn captcha_from_inbox_per_provider() {
    let six = parse(r#"{"hydra:member":[{"intro":"code【123456】"},{"intro":"【999999】"}]}"#);
    let five = parse(r#"{"hydra:member":[{"intro":"code【12345】"}]}"#);
    let empty = parse(r#"{"hydra:member":[]}"#);
    assert_eq!(mail_tm::captcha_from_inbox(&six), Some("123456".to_string()));
    assert_eq!(mail_tm::captcha_from_inbox(&five), None);
    assert_eq!(mail_gw::captcha_from_inbox(&five), Some("12345".to_string()));
    assert_eq!(mail_tm::captcha_from_inbox(&empty), None);
    assert_eq!(mail_gw::captcha_from_inbox(&empty), None);
}

#[test]
fn domain_and_address() {
    let listing = parse(r#"{"hydra:member":[{"domain":"mail.example"},{"domain":"other"}]}"#);
    let d = mailbox::domain_of(&listing).unwrap();
    assert_eq!(d, "mail.example");
    assert_eq!(mailbox::domain_of(&parse(r#"{"hydra:member":[]}"#)), None);
    assert_eq!(mailbox::email_address(&"abc".to_string(), &d), "abc@mail.example");
    let tm = mail_tm::new_address(&d);
    assert_eq!(tm.len(), 15 + 1 + d.len());
    let gw = mail_gw::new_address(&d);
    let local = gw.split('@').next().unwrap();
    assert_eq!(local.len(), 15);
    assert!(local.chars().all(|c| c.is_ascii_lowercase() || c.is_ascii_digit()));
}

#[test]
fn credentials_body() {
    let body = mailbox::credentials(&"a@b".to_string(), &"pw".to_string());
    assert_eq!(argon::json::to_json_text(&body), r#"{"address":"a@b","password":"pw"}"#);
}

#[test]
fn account_and_token_replies() {
    let email = "x@y".to_string();
    let ok = parse(r#"{"address":"x@y","id":"42"}"#);
    let other = parse(r#"{"address":"z@y","id":"42"}"#);
    assert_eq!(mail_tm::account_id(&ok, &email), Some("42".to_string()));
    assert_eq!(mail_tm::account_id(&other, &email), None);
    assert_eq!(mail_gw::account_id(&ok, &email), Some("42".to_string()));
    assert_eq!(mail_gw::account_id(&parse(r#"{"address":"x@y"}"#), &email), None);
    let id = "42".to_string();
    assert_eq!(mail_tm::token_of(&parse(r#"{"id":"42","token":"t"}"#), &id), Some("t".to_string()));
    assert_eq!(mail_tm::token_of(&parse(r#"{"id":"41"}"#), &id), None);
    assert_eq!(mail_gw::token_of(&parse(r#"{"id":"42"}"#), &id), None);
    assert_eq!(mail_gw::token_of(&parse(r#"{"id":42,"token":"t"}"#), &id), None);
}
