use aes::cipher::{BlockEncrypt, KeyInit};
use base64::Engine;
use argon::gameplay::{
    after_queue_poll, as_id, claim_result, decrypt_result, parse_server_data, read_play_reply,
    server_from_result, DecryptError, PlayFinish, PlayReply, ServerDataError, StartError,
    RESULT_IV, RESULT_KEY,
};
use argon::json::{to_json_text, JsonValue};

fn parse(s: &str) -> JsonValue {
    JsonValue::parse(s.as_bytes()).expect("valid json")
}

/// AES-256-CBC with PKCS#7 padding under the service's key, then base64.
fn seal(plain: &[u8]) -> String {
    let cipher = aes::Aes256::new(aes::cipher::generic_array::GenericArray::from_slice(&RESULT_KEY));
    let pad = 16 - plain.len() % 16;
    let mut data = plain.to_vec();
    data.extend(std::iter::repeat(pad as u8).take(pad));
    let mut prev = RESULT_IV;
    let mut out = Vec::new();
    for chunk in data.chunks(16) {
        let mut block = [0u8; 16];
        for i in 0..16 {
            block[i] = chunk[i] ^ prev[i];
        }
        let mut b = aes::Block::clone_from_slice(&block);
        cipher.encrypt_block(&mut b);
        prev.copy_from_slice(&b);
        out.extend_from_slice(&b);
    }
    base64::engine::general_purpose::STANDARD.encode(out)
}

fn seal_raw(data: &[u8]) -> String {
    // Encrypts already padded data.
    let cipher = aes::Aes256::new(aes::cipher::generic_array::GenericArray::from_slice(&RESULT_KEY));
    let mut prev = RESULT_IV;
    let mut out = Vec::new();
    for chunk in data.chunks(16) {
        let mut block = [0u8; 16];
        for i in 0..16 {
            block[i] = chunk[i] ^ prev[i];
        }
        let mut b = aes::Block::clone_from_slice(&block);
        cipher.encrypt_block(&mut b);
        prev.copy_from_slice(&b);
        out.extend_from_slice(&b);
    }
    base64::engine::general_purpose::STANDARD.encode(out)
}

const SERVER: &str = r#"{"sc_id":77,"bs_sc_id":"9","gl_key":"node-1","play_config":{"fps":60},"message_server":{"url":"wss://sig","token":"t%20k"}}"#;

#[test]
fn key_and_iv_are_the_service_constants() {
    assert_eq!(&RESULT_KEY, b"fd39e724f7c1e4b3d34bc7c72b5349c3");
    assert_eq!(&RESULT_IV, b"dd39e4a3337fe25a");
}

#[test]
fn decrypts_a_sealed_object() {
    let blob = seal(SERVER.as_bytes());
    let v = decrypt_result(&blob).expect("decrypts");
    let expected: serde_json::Value = serde_json::from_str(SERVER).unwrap();
    assert_eq!(to_json_text(&v), expected.to_string());
}

#[test]
fn decrypt_errors() {
    assert_eq!(decrypt_result("!!!").unwrap_err(), DecryptError::Base64);
    let short = base64::engine::general_purpose::STANDARD.encode([1u8; 15]);
    assert_eq!(decrypt_result(&short).unwrap_err(), DecryptError::Length(15));
    assert_eq!(decrypt_result("").unwrap_err(), DecryptError::Length(0));
    let mut zero_pad = b"{\"a\":1}".to_vec();
    zero_pad.resize(16, 0);
    assert_eq!(decrypt_result(&seal_raw(&zero_pad)).unwrap_err(), DecryptError::Padding(0));
    let mut big_pad = b"{\"a\":1}".to_vec();
    big_pad.resize(16, 17);
    assert_eq!(decrypt_result(&seal_raw(&big_pad)).unwrap_err(), DecryptError::Padding(17));
    assert_eq!(decrypt_result(&seal(b"not json")).unwrap_err(), DecryptError::Json);
    assert_eq!(decrypt_result(&seal(b"[1,2]")).unwrap_err(), DecryptError::NotObject);
}

#[test]
fn ids_as_text() {
    let v = parse(r#"{"a":"x1","b":123,"c":-1,"d":null}"#);
    let k = |name: &str| argon::json::key(Some(&v), name);
    assert_eq!(as_id(k("a")), Some("x1".to_string()));
    assert_eq!(as_id(k("b")), Some("123".to_string()));
    assert_eq!(as_id(k("c")), None);
    assert_eq!(as_id(k("d")), None);
    assert_eq!(as_id(k("zz")), None);
}

#[test]
fn server_data_fields() {
    let d = parse_server_data(&parse(SERVER)).expect("complete");
    assert_eq!(d.sc_id, "77");
    assert_eq!(to_json_text(&d.bs_sc_id), "\"9\"");
    assert_eq!(d.gl_key, "node-1");
    assert_eq!(to_json_text(&d.play_config), r#"{"fps":60}"#);
    assert_eq!(d.ws_url, "wss://sig");
    assert_eq!(d.ws_token, "t%20k");
}

#[test]
fn server_data_fallbacks_and_errors() {
    let d = parse_server_data(&parse(r#"{"play_id":"p","gl_key":"g","message_server":{"url":"u","token":"t"}}"#)).unwrap();
    assert_eq!(d.sc_id, "p");
    assert_eq!(to_json_text(&d.bs_sc_id), "\"p\"");
    assert_eq!(to_json_text(&d.play_config), "null");
    let d = parse_server_data(&parse(r#"{"sc_id":"s","bs_sc_id":5,"gl_key":"g","message_server":{"url":"u","token":"t"}}"#)).unwrap();
    assert_eq!(to_json_text(&d.bs_sc_id), "5");
    let e = |t: &str| parse_server_data(&parse(t)).err().unwrap();
    assert_eq!(e(r#"{"gl_key":"g"}"#), ServerDataError::MissingScId);
    assert_eq!(e(r#"{"sc_id":"s"}"#), ServerDataError::MissingGlKey);
    assert_eq!(e(r#"{"sc_id":"s","gl_key":"g","message_server":{"token":"t"}}"#), ServerDataError::MissingUrl);
    assert_eq!(e(r#"{"sc_id":"s","gl_key":"g","message_server":{"url":"u"}}"#), ServerDataError::MissingToken);
}

#[test]
fn play_reply_branches() {
    match read_play_reply(&parse(r#"{"status":201,"data":{"play_queue_id":55,"queue_pos":4}}"#)).unwrap() {
        PlayReply::Queued { queue_id, position } => {
            assert_eq!(queue_id, "55");
            assert_eq!(position, 4);
        }
        _ => panic!("expected a queue"),
    }
    match read_play_reply(&parse(r#"{"status":200,"data":{"play_queue_id":"q"}}"#)).unwrap() {
        PlayReply::Queued { queue_id, position } => {
            assert_eq!(queue_id, "q");
            assert_eq!(position, 1);
        }
        _ => panic!("expected a queue"),
    }
    match read_play_reply(&parse(r#"{"status":200,"data":{"result":"abc"}}"#)).unwrap() {
        PlayReply::Assigned { result } => assert_eq!(result, "abc"),
        _ => panic!("expected a result"),
    }
    assert_eq!(read_play_reply(&parse(r#"{"status":201,"data":{}}"#)).err(), Some(StartError::QueuedWithoutId));
    assert_eq!(read_play_reply(&parse(r#"{"status":4623,"data":{}}"#)).err(), Some(StartError::NoResult));
}

#[test]
fn result_to_server() {
    let d = server_from_result(&seal(SERVER.as_bytes())).unwrap();
    assert_eq!(d.gl_key, "node-1");
    assert_eq!(server_from_result("%%").err(), Some(StartError::Decrypt(DecryptError::Base64)));
    assert_eq!(
        server_from_result(&seal(b"{}")).err(),
        Some(StartError::ServerData(ServerDataError::MissingScId))
    );
    assert_eq!(claim_result(&parse(r#"{"data":{"result":"r"}}"#)), Some("r".to_string()));
    assert_eq!(claim_result(&parse(r#"{"data":{}}"#)), None);
}

#[test]
fn queue_poll() {
    match after_queue_poll(3) {
        Some(PlayFinish::StillQueued { position }) => assert_eq!(position, 3),
        _ => panic!("still queued"),
    }
    assert!(after_queue_poll(0).is_none());
}

#[test]
fn decrypts_decoded_bytes() {
    let blob = seal(br#"{"abcdefghijklmnop":1}"#);
    let raw = base64::engine::general_purpose::STANDARD.decode(blob).unwrap();
    let v = argon::gameplay::decrypt_decoded(&raw).expect("decrypts");
    assert_eq!(to_json_text(&v), r#"{"abcdefghijklmnop":1}"#);
    // The first block alone ends in the text's 16th byte, no padding length.
    assert_eq!(argon::gameplay::decrypt_decoded(&raw[..16]).unwrap_err(), DecryptError::Padding(b'n'));
    assert_eq!(argon::gameplay::decrypt_decoded(&[]).unwrap_err(), DecryptError::Length(0));
    assert_eq!(argon::gameplay::decrypt_decoded(&[1, 2, 3]).unwrap_err(), DecryptError::Length(3));
}
