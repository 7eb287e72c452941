//! Registering a raccoongame account: the device serial, the phone number,
//! and reading the service's replies.
use vstd::prelude::*;
use crate::json::{as_i64, as_str, get, i64_of, key, owned_text, str_of, JsonValue, JsonView};
use crate::random::{random_below, sample_chars_inclusive};
use crate::text::{hex_digit, nibble_char, push_char};

verus! {

broadcast use vstd::seq::group_seq_axioms;

/// The characters a device serial is made of.
pub open spec fn is_hex_lower_char(c: char) -> bool {
    ('0' <= c && c <= '9') || ('a' <= c && c <= 'f')
}

/// The device serial for 32 drawn indices: each index picks its character
/// from `0123456789abcdef`.
pub fn serial_from_draws(draws: &Vec<usize>) -> (r: String)
    requires
        draws@.len() == 32,
        forall|k: int| 0 <= k < 32 ==> draws@[k] < 16,
    ensures
        r@.len() == 32,
        forall|k: int| 0 <= k < 32 ==> r@[k] == hex_digit(draws@[k] as int),
{
    let mut out = String::new();
    let mut i: usize = 0;
    while i < 32
        invariant
            i <= 32,
            draws@.len() == 32,
            forall|k: int| 0 <= k < 32 ==> draws@[k] < 16,
            out@.len() == i,
            forall|k: int| 0 <= k < i ==> out@[k] == hex_digit(draws@[k] as int),
        decreases 32 - i,
    {
        let c = nibble_char(draws[i] as u8);
        push_char(&mut out, c);
        i = i + 1;
    }
    out
}

/// A device serial: 32 indices drawn uniformly from `0..16`, each giving
/// one character of `0123456789abcdef`.
pub fn generate_sn() -> (r: String)
    ensures
        r@.len() == 32,
        forall|k: int| 0 <= k < 32 ==> is_hex_lower_char(#[trigger] r@[k]),
        exists|draws: Seq<usize>|
            draws.len() == 32 && (forall|k: int| 0 <= k < 32 ==> draws[k] < 16) && (forall|k: int|
                0 <= k < 32 ==> r@[k] == hex_digit(#[trigger] draws[k] as int)),
{
    let mut draws: Vec<usize> = Vec::new();
    let mut i: usize = 0;
    while i < 32
        invariant
            i <= 32,
            draws@.len() == i,
            forall|k: int| 0 <= k < i ==> draws@[k] < 16,
        decreases 32 - i,
    {
        draws.push(random_below(16));
        i = i + 1;
    }
    let r = serial_from_draws(&draws);
    assert forall|k: int| 0 <= k < 32 implies is_hex_lower_char(#[trigger] r@[k]) by {
        assert(r@[k] == hex_digit(draws@[k] as int));
    }
    r
}

/// A phone number: ten characters drawn from `0..=9`.
pub fn new_phone_who_dis() -> (r: String)
    ensures
        r@.len() == 10,
        forall|k: int| 0 <= k < 10 ==> '0' <= #[trigger] r@[k] <= '9',
{
    sample_chars_inclusive('0', '9', 10)
}

/// The service accepted the request: `status` is 200.
pub open spec fn spec_accepted(reply: JsonView) -> bool {
    as_i64(get(reply, "status"@)) == Some(200i64)
}

/// Whether `sendEmail` accepted the request for a code.
pub fn send_email_accepted(reply: &JsonValue) -> (r: bool)
    ensures
        r == spec_accepted(reply@),
{
    i64_of(key(Some(reply), "status")) == Some(200i64)
}

/// The user token of a registration that worked: status 200, the serial
/// echoed back, and a token.
pub open spec fn spec_registered_token(reply: JsonView, sn: Seq<char>) -> Option<Seq<char>> {
    let data = get(reply, "data"@);
    if spec_accepted(reply) && as_str(get(data, "sn"@)) == Some(sn) {
        as_str(get(data, "user_token"@))
    } else {
        None
    }
}

pub fn registered_token(reply: &JsonValue, sn: &String) -> (r: Option<String>)
    ensures
        owned_text(r) == spec_registered_token(reply@, sn@),
{
    if !send_email_accepted(reply) {
        return None;
    }
    let data = key(Some(reply), "data");
    match str_of(key(data, "sn")) {
        Some(got) => {
            if *got == *sn {
                match str_of(key(data, "user_token")) {
                    Some(t) => Some(t.clone()),
                    None => None,
                }
            } else {
                None
            }
        },
        None => None,
    }
}

} // verus!
