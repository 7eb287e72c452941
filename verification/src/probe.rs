//! Sorting the game catalogue into what a fresh account may play.
use vstd::prelude::*;
use crate::json::{as_u64, get, key, u64_of, JsonValue, JsonView};

verus! {

broadcast use {vstd::seq::group_seq_axioms, vstd::std_specs::vec::group_vec_axioms};

/// The cost check status of a game a fresh account may start.
pub const PLAYABLE_STATUS: u64 = 200;

/// The cost check status of a game that needs a membership.
pub const MEMBERSHIP_STATUS: u64 = 4623;

/// A game of the catalogue and whether a fresh account may play it.
#[derive(Debug)]
pub struct GameProbe {
    pub name: String,
    pub game_key: String,
    pub playable: bool,
}

/// How many games of the list are playable.
pub open spec fn count_playable(games: Seq<GameProbe>) -> nat
    decreases games.len(),
{
    if games.len() == 0 {
        0
    } else {
        count_playable(games.drop_last()) + if games.last().playable {
            1nat
        } else {
            0nat
        }
    }
}

pub proof fn lemma_count_playable_bound(games: Seq<GameProbe>)
    ensures
        count_playable(games) <= games.len(),
    decreases games.len(),
{
    if games.len() > 0 {
        lemma_count_playable_bound(games.drop_last());
    }
}

pub fn playable_count(games: &Vec<GameProbe>) -> (r: usize)
    ensures
        r == count_playable(games@),
{
    let mut n: usize = 0;
    let mut i: usize = 0;
    while i < games.len()
        invariant
            i <= games@.len(),
            n == count_playable(games@.take(i as int)),
        decreases games@.len() - i,
    {
        proof {
            assert(games@.take(i as int + 1).drop_last() =~= games@.take(i as int));
            lemma_count_playable_bound(games@.take(i as int));
        }
        if games[i].playable {
            n = n + 1;
        }
        i = i + 1;
    }
    assert(games@.take(games@.len() as int) =~= games@);
    n
}

/// The outcome of one cost check: playable when the reply's status is 200;
/// a failed check is not playable.
pub open spec fn spec_probe_playable(reply: Option<JsonView>) -> bool {
    match reply {
        Some(v) => match as_u64(get(v, "status"@)) {
            Some(s) => s == PLAYABLE_STATUS,
            None => 0 == PLAYABLE_STATUS,
        },
        None => false,
    }
}

pub open spec fn opt_view(o: Option<&JsonValue>) -> Option<JsonView> {
    match o {
        Some(v) => Some(v@),
        None => None,
    }
}

pub fn probe_playable(reply: Option<&JsonValue>) -> (r: bool)
    ensures
        r == spec_probe_playable(opt_view(reply)),
{
    match reply {
        Some(v) => {
            let status = match u64_of(key(Some(v), "status")) {
                Some(s) => s,
                None => 0,
            };
            status == PLAYABLE_STATUS
        },
        None => false,
    }
}

/// The catalogue entry a probe records.
pub fn probe_entry(game: GameProbe, reply: Option<&JsonValue>) -> (r: GameProbe)
    ensures
        r.name == game.name,
        r.game_key == game.game_key,
        r.playable == spec_probe_playable(opt_view(reply)),
{
    let playable = probe_playable(reply);
    GameProbe { name: game.name, game_key: game.game_key, playable }
}

} // verus!
