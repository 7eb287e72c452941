//! Decisions for the mail.tm inbox provider.
use vstd::prelude::*;
use crate::captcha::{split_capture, CaptchaError};
use crate::text::{find_char_from, first_index, lemma_first_from_bounds, slice_chars, trim, trimmed};
use vstd::string::StrSliceExecFns;
use crate::json::{as_str, get, key, owned_text, same_text, str_of, JsonValue, JsonView};
use crate::mailbox::{email_address, first_intro, spec_first_intro};
use crate::random::generate_string;
use crate::text::is_ascii_alnum;

verus! {

/// What `extract_captcha` returns for a message.
pub open spec fn spec_extract_captcha(message: Seq<char>) -> Result<Seq<char>, CaptchaError> {
    match split_capture(message) {
        Some(code) => Ok(trimmed(code)),
        None => Err(CaptchaError::NotFound),
    }
}

/// The code between the first `【` and the first `】` after it, trimmed.
pub fn extract_captcha(message: String) -> (r: Result<String, CaptchaError>)
    ensures
        match r {
            Ok(code) => spec_extract_captcha(message@) == Ok::<Seq<char>, CaptchaError>(code@),
            Err(e) => spec_extract_captcha(message@) == Err::<Seq<char>, CaptchaError>(e),
        },
{
    let m = message.as_str();
    let n = m.unicode_len();
    match find_char_from(m, '【', 0) {
        None => Err(CaptchaError::NotFound),
        Some(a) => {
            proof {
                lemma_first_from_bounds(m@, '【', 0);
            }
            let right = slice_chars(m, a + 1, n);
            assert(right@ =~= m@.skip(a + 1));
            match find_char_from(right.as_str(), '】', 0) {
                None => Err(CaptchaError::NotFound),
                Some(b) => {
                    proof {
                        lemma_first_from_bounds(right@, '】', 0);
                    }
                    let inner = slice_chars(right.as_str(), 0, b);
                    assert(inner@ =~= right@.take(b as int));
                    Ok(trim(inner.as_str()))
                },
            }
        },
    }
}


/// The code carried by the first message of an inbox listing, kept only
/// when it is six characters long.
pub open spec fn spec_captcha_from_inbox(inbox: JsonView) -> Option<Seq<char>> {
    match spec_first_intro(inbox) {
        Some(intro) => match spec_extract_captcha(intro) {
            Ok(code) => if code.len() == 6 {
                Some(code)
            } else {
                None
            },
            Err(_) => None,
        },
        None => None,
    }
}

/// One attempt of `fetch_captcha` on an inbox listing.
pub fn captcha_from_inbox(inbox: &JsonValue) -> (r: Option<String>)
    ensures
        owned_text(r) == spec_captcha_from_inbox(inbox@),
{
    match first_intro(inbox) {
        Some(intro) => match extract_captcha(intro.clone()) {
            Ok(code) => {
                if code.as_str().unicode_len() == 6 {
                    Some(code)
                } else {
                    None
                }
            },
            Err(_) => None,
        },
        None => None,
    }
}

/// A fresh mail.tm address: fifteen random letters and digits at `domain`.
pub fn new_address(domain: &String) -> (r: String)
    ensures
        exists|local: Seq<char>|
            local.len() == 15 && (forall|k: int| 0 <= k < 15 ==> is_ascii_alnum(#[trigger] local[k]))
                && r@ == local + seq!['@'] + domain@,
{
    let local = generate_string(15);
    email_address(&local, domain)
}

/// The account id in the reply to `POST /accounts`, when the reply echoes
/// the address that was asked for. The reply must carry an address, and an
/// id when the address matches: the service reads both with `unwrap`.
pub fn account_id(reply: &JsonValue, email: &String) -> (r: Option<String>)
    requires
        as_str(get(reply@, "address"@)) is Some,
        as_str(get(reply@, "address"@)) == Some(email@) ==> as_str(get(reply@, "id"@)) is Some,
    ensures
        as_str(get(reply@, "address"@)) == Some(email@) ==> owned_text(r) == as_str(
            get(reply@, "id"@),
        ),
        as_str(get(reply@, "address"@)) != Some(email@) ==> r is None,
{
    let address = str_of(key(Some(reply), "address"));
    match address {
        Some(a) => {
            if *a == *email {
                match str_of(key(Some(reply), "id")) {
                    Some(id) => Some(id.clone()),
                    None => None,
                }
            } else {
                None
            }
        },
        None => None,
    }
}

/// The token in the reply to `POST /token`, when the reply names the account
/// id that was asked for. A reply that names it must carry a token: the
/// service reads it with `unwrap`.
pub fn token_of(reply: &JsonValue, id: &String) -> (r: Option<String>)
    requires
        as_str(get(reply@, "id"@)) == Some(id@) ==> as_str(get(reply@, "token"@)) is Some,
    ensures
        as_str(get(reply@, "id"@)) == Some(id@) ==> owned_text(r) == as_str(get(reply@, "token"@)),
        as_str(get(reply@, "id"@)) != Some(id@) ==> r is None,
{
    match str_of(key(Some(reply), "id")) {
        Some(got) => {
            if *got == *id {
                match str_of(key(Some(reply), "token")) {
                    Some(t) => Some(t.clone()),
                    None => None,
                }
            } else {
                None
            }
        },
        None => None,
    }
}

} // verus!
