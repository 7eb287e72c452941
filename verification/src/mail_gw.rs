//! Decisions for the mail.gw inbox provider.
use vstd::prelude::*;
use crate::captcha::{bracket_capture, regex_capture_group, CaptchaError};
use crate::json::{as_str, get, key, owned_text, str_of, JsonValue, JsonView};
use crate::mailbox::{email_address, first_intro, spec_first_intro};
use crate::random::generate_string;
use crate::text::{is_ascii_alnum, lower_char, lowercase_alnum, trim, trimmed};

verus! {

/// What `extract_captcha` returns for a message.
pub open spec fn spec_extract_captcha(message: Seq<char>) -> Result<Seq<char>, CaptchaError> {
    match bracket_capture(message) {
        Some(code) => Ok(trimmed(code)),
        None => Err(CaptchaError::NotFound),
    }
}

/// The first capture of `【(.*?)】` in the message, trimmed.
pub fn extract_captcha(message: &str) -> (r: Result<String, CaptchaError>)
    ensures
        match r {
            Ok(code) => spec_extract_captcha(message@) == Ok::<Seq<char>, CaptchaError>(code@),
            Err(e) => spec_extract_captcha(message@) == Err::<Seq<char>, CaptchaError>(e),
        },
{
    match regex_capture_group("【(.*?)】", message) {
        Some(group) => Ok(trim(group.as_str())),
        None => Err(CaptchaError::NotFound),
    }
}

/// The code carried by the first message of an inbox listing.
pub open spec fn spec_captcha_from_inbox(inbox: JsonView) -> Option<Seq<char>> {
    match spec_first_intro(inbox) {
        Some(intro) => match spec_extract_captcha(intro) {
            Ok(code) => Some(code),
            Err(_) => None,
        },
        None => None,
    }
}

/// One attempt of `fetch_captcha` on an inbox listing.
pub fn captcha_from_inbox(inbox: &JsonValue) -> (r: Option<String>)
    ensures
        owned_text(r) == spec_captcha_from_inbox(inbox@),
{
    match first_intro(inbox) {
        Some(intro) => match extract_captcha(intro.as_str()) {
            Ok(code) => Some(code),
            Err(_) => None,
        },
        None => None,
    }
}

/// A fresh mail.gw address: fifteen random letters and digits, in lower
/// case, at `domain`.
pub fn new_address(domain: &String) -> (r: String)
    ensures
        exists|local: Seq<char>|
            local.len() == 15 && (forall|k: int| 0 <= k < 15 ==> is_ascii_alnum(#[trigger] local[k]))
                && r@ == local.map_values(|c: char| lower_char(c)) + seq!['@'] + domain@,
{
    let raw = generate_string(15);
    let local = lowercase_alnum(&raw);
    email_address(&local, domain)
}

/// The account id in the reply to `POST /accounts`, when the reply echoes
/// the address that was asked for and carries an id.
pub fn account_id(reply: &JsonValue, email: &String) -> (r: Option<String>)
    ensures
        owned_text(r) == (if as_str(get(reply@, "address"@)) == Some(email@) {
            as_str(get(reply@, "id"@))
        } else {
            None
        }),
{
    match str_of(key(Some(reply), "address")) {
        Some(a) => {
            if *a == *email {
                match str_of(key(Some(reply), "id")) {
                    Some(id) => Some(id.clone()),
                    None => None,
                }
            } else {
                None
            }
        },
        None => None,
    }
}

/// The token in the reply to `POST /token`, when the reply names the
/// account id that was asked for and carries a token.
pub fn token_of(reply: &JsonValue, id: &String) -> (r: Option<String>)
    ensures
        owned_text(r) == (if as_str(get(reply@, "id"@)) == Some(id@) {
            as_str(get(reply@, "token"@))
        } else {
            None
        }),
{
    match str_of(key(Some(reply), "id")) {
        Some(got) => {
            if *got == *id {
                match str_of(key(Some(reply), "token")) {
                    Some(t) => Some(t.clone()),
                    None => None,
                }
            } else {
                None
            }
        },
        None => None,
    }
}

} // verus!
