//! The form fields of the game service's web requests.
use vstd::prelude::*;
use crate::text::{decimal, u64_to_decimal};

verus! {

broadcast use {vstd::seq::group_seq_axioms, vstd::std_specs::vec::group_vec_axioms};

/// The text of each field name and value.
pub open spec fn fields_view(v: Seq<(String, String)>) -> Seq<(Seq<char>, Seq<char>)> {
    v.map_values(|p: (String, String)| (p.0@, p.1@))
}

/// The fields every game request carries: the device, the web client and the user token.
pub open spec fn spec_device_form(sn: Seq<char>, token: Seq<char>) -> Seq<(Seq<char>, Seq<char>)> {
    seq![
        ("sn"@, sn),
        ("model"@, "Chrome/150.0.0.0"@),
        ("version_code"@, "1"@),
        ("version_name"@, "1.0.0"@),
        ("device_name"@, "我的设备"@),
        ("os"@, "web"@),
        ("manufacturer;"@, Seq::<char>::empty()),
        ("user_token"@, token),
    ]
}

/// The fields of a `playGame` request: the device fields, the game, and the
/// queue entry being claimed when there is one.
pub open spec fn spec_play_form(
    sn: Seq<char>,
    token: Seq<char>,
    game_key: Seq<char>,
    queue_id: Option<Seq<char>>,
) -> Seq<(Seq<char>, Seq<char>)> {
    spec_device_form(sn, token) + seq![("game_key"@, game_key), ("model_name"@, "Chrome/150.0.0.0"@)]
        + match queue_id {
        Some(q) => seq![("play_queue_id"@, q)],
        None => Seq::empty(),
    }
}

/// The fields of a `gameList` request for one page of twenty games.
pub open spec fn spec_page_form(sn: Seq<char>, token: Seq<char>, page: u32) -> Seq<
    (Seq<char>, Seq<char>),
> {
    spec_device_form(sn, token) + seq![
        ("page"@, decimal(page as nat)),
        ("page_size"@, "20"@),
        ("game_name"@, Seq::<char>::empty()),
        ("platform"@, "3"@),
    ]
}

fn push_field(fields: &mut Vec<(String, String)>, name: &str, value: String)
    ensures
        fields_view(final(fields)@) == fields_view(old(fields)@).push((name@, value@)),
{
    let ghost before = fields@;
    fields.push((name.to_owned(), value));
    assert(fields_view(fields@) =~= fields_view(before).push((name@, value@)));
}

pub fn device_form(sn: &str, token: &str) -> (r: Vec<(String, String)>)
    ensures
        fields_view(r@) == spec_device_form(sn@, token@),
{
    let mut f: Vec<(String, String)> = Vec::new();
    assert(fields_view(f@) =~= Seq::<(Seq<char>, Seq<char>)>::empty());
    push_field(&mut f, "sn", sn.to_owned());
    push_field(&mut f, "model", "Chrome/150.0.0.0".to_owned());
    push_field(&mut f, "version_code", "1".to_owned());
    push_field(&mut f, "version_name", "1.0.0".to_owned());
    push_field(&mut f, "device_name", "我的设备".to_owned());
    push_field(&mut f, "os", "web".to_owned());
    push_field(&mut f, "manufacturer;", String::new());
    push_field(&mut f, "user_token", token.to_owned());
    assert(fields_view(f@) =~= spec_device_form(sn@, token@));
    f
}

pub fn play_form(sn: &str, token: &str, game_key: &str, queue_id: Option<&str>) -> (r: Vec<
    (String, String),
>)
    ensures
        fields_view(r@) == spec_play_form(
            sn@,
            token@,
            game_key@,
            match queue_id {
                Some(q) => Some(q@),
                None => None,
            },
        ),
{
    let mut f = device_form(sn, token);
    push_field(&mut f, "game_key", game_key.to_owned());
    push_field(&mut f, "model_name", "Chrome/150.0.0.0".to_owned());
    match queue_id {
        Some(q) => {
            push_field(&mut f, "play_queue_id", q.to_owned());
        },
        None => {},
    }
    assert(fields_view(f@) =~= spec_play_form(
        sn@,
        token@,
        game_key@,
        match queue_id {
            Some(q) => Some(q@),
            None => None,
        },
    ));
    f
}

pub fn page_form(sn: &str, token: &str, page: u32) -> (r: Vec<(String, String)>)
    ensures
        fields_view(r@) == spec_page_form(sn@, token@, page),
{
    let mut f = device_form(sn, token);
    push_field(&mut f, "page", u64_to_decimal(page as u64));
    push_field(&mut f, "page_size", "20".to_owned());
    push_field(&mut f, "game_name", String::new());
    push_field(&mut f, "platform", "3".to_owned());
    assert(fields_view(f@) =~= spec_page_form(sn@, token@, page));
    f
}

} // verus!
