//! Reading the replies of the Hydra-style mail APIs (mail.tm and mail.gw
//! answer with the same shapes).
use vstd::prelude::*;
use crate::json::{
    as_array, as_i64, as_str, at, get, i64_of, items_of, key, opt_text, owned_text, pos, str_of,
    JsonValue, JsonView,
};
use crate::text::push_char;

verus! {

broadcast use vstd::seq::group_seq_axioms;

/// An inbox listing counts as holding mail when `hydra:totalItems` is a
/// positive integer.
pub open spec fn spec_inbox_ready(inbox: JsonView) -> bool {
    match as_i64(get(inbox, "hydra:totalItems"@)) {
        Some(t) => t > 0,
        None => false,
    }
}

pub fn inbox_ready(inbox: &JsonValue) -> (r: bool)
    ensures
        r == spec_inbox_ready(inbox@),
{
    match i64_of(key(Some(inbox), "hydra:totalItems")) {
        Some(t) => t > 0,
        None => false,
    }
}

/// The `intro` text of the first message of an inbox listing.
pub open spec fn spec_first_intro(inbox: JsonView) -> Option<Seq<char>> {
    match as_array(get(inbox, "hydra:member"@)) {
        Some(members) => if members.len() > 0 {
            as_str(get(members[0], "intro"@))
        } else {
            None
        },
        None => None,
    }
}

pub fn first_intro(inbox: &JsonValue) -> (r: Option<&String>)
    ensures
        opt_text(r) == spec_first_intro(inbox@),
{
    match items_of(key(Some(inbox), "hydra:member")) {
        Some(members) => {
            if members.len() > 0 {
                str_of(key(Some(&members[0]), "intro"))
            } else {
                None
            }
        },
        None => None,
    }
}

/// The first domain of a `/domains` listing: `hydra:member[0].domain`.
pub open spec fn spec_domain_of(listing: JsonView) -> Option<Seq<char>> {
    as_str(get(at(get(listing, "hydra:member"@), 0), "domain"@))
}

pub fn domain_of(listing: &JsonValue) -> (r: Option<String>)
    ensures
        owned_text(r) == spec_domain_of(listing@),
{
    match str_of(key(pos(key(Some(listing), "hydra:member"), 0), "domain")) {
        Some(d) => Some(d.clone()),
        None => None,
    }
}

/// `format!("{}@{}", local, domain)`.
pub fn email_address(local: &String, domain: &String) -> (r: String)
    ensures
        r@ == local@ + seq!['@'] + domain@,
{
    let mut out = local.clone();
    push_char(&mut out, '@');
    crate::text::push_text(&mut out, domain.as_str());
    out
}

/// The body posted to `/accounts` and `/token`: `{"address": .., "password": ..}`.
pub open spec fn spec_credentials(address: Seq<char>, password: Seq<char>) -> JsonView {
    JsonView::Object(
        seq![("address"@, JsonView::Str(address)), ("password"@, JsonView::Str(password))],
    )
}

pub fn credentials(address: &String, password: &String) -> (r: JsonValue)
    ensures
        r@ == spec_credentials(address@, password@),
{
    let mut entries: Vec<(String, JsonValue)> = Vec::new();
    let k1 = "address".to_owned();
    let k2 = "password".to_owned();
    entries.push((k1, JsonValue::Str(address.clone())));
    entries.push((k2, JsonValue::Str(password.clone())));
    assert(entries@.len() == 2);
    assert(entries@[0].0@ == "address"@ && entries@[1].0@ == "password"@);
    assert(entries@[0].1@ == JsonView::Str(address@) && entries@[1].1@ == JsonView::Str(password@));
    let r = JsonValue::Object(entries);
    proof {
        let es = match r@ {
            JsonView::Object(es) => es,
            _ => Seq::empty(),
        };
        assert(es =~= seq![("address"@, JsonView::Str(address@)), ("password"@, JsonView::Str(password@))]);
    }
    r
}

} // verus!
