//! Properties that hold across the operations of the library.
use vstd::prelude::*;
use crate::accountdb::{
    fresh_active, fresh_sessions, handed, spec_pop, spec_put_session, AccountView, ActiveView,
    SessionView,
};
use crate::api::{spec_admission, spec_queue_lookup, ApiError};
use crate::catalog::{absorb, item_id};
use crate::json::JsonView;
use crate::pool::{spec_backoff, MAX_BACKOFF_SECS};
use crate::signal::{signal_step, SignalAction, SignalView};
use crate::textmap::is_fresh;
use crate::json::{as_array, as_str, as_u64, get, is_number};
use crate::gameplay::{spec_read_play_reply, StartError};
use crate::catalog::{page_step, PageNext, MAX_PAGES};
use crate::captcha::{bracket_capture, split_capture};
use crate::text::{decimal, trimmed};
use crate::probe::spec_probe_playable;

verus! {

broadcast use {vstd::seq::group_seq_axioms, vstd::set::group_set_axioms, vstd::map::group_map_axioms};

/// An account handed out under a public id can be looked up under it, with
/// the serial and token of the stored account and the time it was handed out.
pub proof fn law_handed_out_is_active(
    m: Map<Seq<char>, ActiveView>,
    public_id: Seq<char>,
    a: AccountView,
    now: u64,
)
    ensures
        spec_pop(m, public_id, Some(a), now).contains_key(public_id),
        spec_pop(m, public_id, Some(a), now)[public_id] == handed(public_id, a, now),
        spec_pop(m, public_id, Some(a), now)[public_id].sn == a.sn,
        spec_pop(m, public_id, Some(a), now)[public_id].token == a.token,
{
}

/// Handing out leaves the other handed-out accounts as they were.
pub proof fn law_hand_out_keeps_others(
    m: Map<Seq<char>, ActiveView>,
    public_id: Seq<char>,
    stored: Option<AccountView>,
    now: u64,
    other: Seq<char>,
)
    requires
        other != public_id,
    ensures
        spec_pop(m, public_id, stored, now).contains_key(other) == m.contains_key(other),
        m.contains_key(other) ==> spec_pop(m, public_id, stored, now)[other] == m[other],
{
}

/// An account is played at most once: once used up, it is no longer
/// handed out, so a second use reports it gone, and a play request for it
/// is refused.
pub proof fn law_account_played_once(
    m: Map<Seq<char>, ActiveView>,
    public_id: Seq<char>,
    probed: bool,
    playable: Option<bool>,
)
    ensures
        !m.remove(public_id).contains_key(public_id),
        m.remove(public_id).remove(public_id) == m.remove(public_id),
        spec_admission(m.remove(public_id), public_id, probed, playable) is Err,
{
    assert(m.remove(public_id).remove(public_id) =~= m.remove(public_id));
}

/// A play that became ready ends the queued session and uses up the
/// account, so a later poll of the queue finds nothing (404).
pub proof fn law_ready_play_ends_queue(
    sessions: Map<Seq<char>, SessionView>,
    active: Map<Seq<char>, ActiveView>,
    public_id: Seq<char>,
)
    ensures
        spec_queue_lookup(sessions.remove(public_id), active.remove(public_id), public_id) == Err::<
            (SessionView, ActiveView),
            ApiError,
        >(ApiError { status: 404, retry_after: 10 }),
{
}

/// A queued session reads back as it was stored, stamped with the time it
/// was stored.
pub proof fn law_session_reads_back(
    m: Map<Seq<char>, SessionView>,
    public_id: Seq<char>,
    s: SessionView,
    now: u64,
)
    ensures
        spec_put_session(m, public_id, s, now).contains_key(public_id),
        spec_put_session(m, public_id, s, now)[public_id] == (SessionView { created_at: now, ..s }),
        !spec_put_session(m, public_id, s, now).remove(public_id).contains_key(public_id),
{
}

/// A sweep keeps exactly the handed-out accounts and sessions younger than
/// an hour, unchanged.
pub proof fn law_sweep_keeps_exactly_fresh(
    active: Map<Seq<char>, ActiveView>,
    sessions: Map<Seq<char>, SessionView>,
    now: u64,
    k: Seq<char>,
)
    ensures
        fresh_active(active, now).contains_key(k) <==> (active.contains_key(k) && is_fresh(
            active[k].created_at,
            now,
        )),
        fresh_active(active, now).contains_key(k) ==> fresh_active(active, now)[k] == active[k],
        fresh_sessions(sessions, now).contains_key(k) <==> (sessions.contains_key(k) && is_fresh(
            sessions[k].created_at,
            now,
        )),
        fresh_sessions(sessions, now).contains_key(k) ==> fresh_sessions(sessions, now)[k]
            == sessions[k],
{
}

/// The pool hands accounts out in the order they came in: adding one does
/// not change which comes out next, unless the pool was empty.
pub proof fn law_stock_first_in_first_out<A>(stock: Seq<A>, added: A)
    ensures
        stock.len() > 0 ==> stock.push(added)[0] == stock[0],
        stock.len() > 0 ==> stock.push(added).drop_first() == stock.drop_first().push(added),
        stock.len() == 0 ==> stock.push(added)[0] == added,
{
    if stock.len() > 0 {
        assert(stock.push(added).drop_first() =~= stock.drop_first().push(added));
    }
}

/// The game is started at most once per signalling exchange: after the
/// start request, no message asks for it again.
pub proof fn law_game_started_once(s: SignalView, data: JsonView, gl_key: Seq<char>, now: u64)
    requires
        s.started,
    ensures
        signal_step(s, data, gl_key, now).0.started,
        signal_step(s, data, gl_key, now).1 != SignalAction::StartGame,
{
}

/// Candidates are only ever added, at the end, and the deadline never moves.
pub proof fn law_candidates_only_grow(s: SignalView, data: JsonView, gl_key: Seq<char>, now: u64)
    ensures
        signal_step(s, data, gl_key, now).0.candidates == s.candidates || exists|c: Seq<char>|
            signal_step(s, data, gl_key, now).0.candidates == s.candidates.push(c),
        signal_step(s, data, gl_key, now).0.deadline == s.deadline,
{
}

/// The gathered catalogue items all carry an integer id, no id twice, and
/// the ids seen are exactly theirs.
pub open spec fn gathered_ok(all: Seq<JsonView>, seen: Set<u64>) -> bool {
    &&& forall|i: int| 0 <= i < all.len() ==> (#[trigger] item_id(all[i])) is Some
    &&& forall|i: int, j: int|
        0 <= i < all.len() && 0 <= j < all.len() && i != j ==> #[trigger] item_id(all[i])
            != #[trigger] item_id(all[j])
    &&& forall|id: u64|
        #[trigger] seen.contains(id) <==> exists|i: int| 0 <= i < all.len() && item_id(all[i]) == Some(id)
}

/// Gathering a page never repeats an item id.
pub proof fn law_gathering_never_repeats(all: Seq<JsonView>, seen: Set<u64>, items: Seq<JsonView>)
    requires
        gathered_ok(all, seen),
    ensures
        gathered_ok(absorb(all, seen, items).0, absorb(all, seen, items).1),
    decreases items.len(),
{
    if items.len() > 0 {
        law_gathering_never_repeats(all, seen, items.drop_last());
        let (a, s) = absorb(all, seen, items.drop_last());
        let it = items.last();
        match item_id(it) {
            Some(id) => {
                if !s.contains(id) {
                    let a2 = a.push(it);
                    let s2 = s.insert(id);
                    assert forall|i: int, j: int|
                        0 <= i < a2.len() && 0 <= j < a2.len() && i != j implies #[trigger] item_id(
                        a2[i],
                    ) != #[trigger] item_id(a2[j]) by {
                        if i == a.len() as int {
                            if item_id(a[j]) == Some(id) {
                                assert(s.contains(id));
                            }
                        } else if j == a.len() as int {
                            if item_id(a[i]) == Some(id) {
                                assert(s.contains(id));
                            }
                        } else {
                            assert(a2[i] == a[i] && a2[j] == a[j]);
                        }
                    }
                    assert forall|x: u64| #[trigger] s2.contains(x) <==> exists|i: int|
                        0 <= i < a2.len() && item_id(a2[i]) == Some(x) by {
                        if s2.contains(x) {
                            if x == id {
                                assert(item_id(a2[a.len() as int]) == Some(x));
                            } else {
                                let i = choose|i: int| 0 <= i < a.len() && item_id(a[i]) == Some(x);
                                assert(a2[i] == a[i]);
                            }
                        }
                        if exists|i: int| 0 <= i < a2.len() && item_id(a2[i]) == Some(x) {
                            let i = choose|i: int| 0 <= i < a2.len() && item_id(a2[i]) == Some(x);
                            if i < a.len() {
                                assert(a2[i] == a[i]);
                                assert(s.contains(x));
                            }
                        }
                    }
                    assert forall|i: int| 0 <= i < a2.len() implies (#[trigger] item_id(a2[i])) is Some by {
                        if i < a.len() {
                            assert(a2[i] == a[i]);
                        }
                    }
                }
            },
            None => {},
        }
    }
}

/// The pause after failed builds never exceeds a minute and never shrinks
/// as failures add up.
pub proof fn law_backoff_bounded_and_growing(f1: u32, f2: u32)
    requires
        f1 <= f2,
    ensures
        spec_backoff(f1) <= MAX_BACKOFF_SECS,
        spec_backoff(f1) <= spec_backoff(f2),
        spec_backoff(f1) >= 3,
{
    vstd::arithmetic::power2::lemma2_to64();
}

/// A `playGame` reply with status 200 whose `data.play_queue_id` is a
/// non-negative integer puts the account in the queue under that number
/// written in decimal, at `data.queue_pos` (1 when absent); a string id is
/// taken as it is; any other number gives no usable queue id.
pub proof fn law_status_200_with_queue_id_is_queued(play: JsonView)
    requires
        as_u64(get(play, "status"@)) == Some(200u64),
    ensures
        ({
            let data = get(play, "data"@);
            let qid = get(data, "play_queue_id"@);
            let position: u64 = match as_u64(get(data, "queue_pos"@)) {
                Some(p) => p,
                None => 1u64,
            };
            &&& (as_u64(qid) matches Some(n) ==> spec_read_play_reply(play) == Ok::<
                (bool, Seq<char>, u64),
                StartError,
            >((true, decimal(n as nat), position)))
            &&& (as_str(qid) matches Some(id) ==> spec_read_play_reply(play) == Ok::<
                (bool, Seq<char>, u64),
                StartError,
            >((true, id, position)))
            &&& (is_number(qid) && as_u64(qid) is None ==> spec_read_play_reply(play) == Err::<
                (bool, Seq<char>, u64),
                StartError,
            >(StartError::QueuedWithoutId))
        }),
{
}

/// The SDP offer is sent exactly for a `start_game` message from the
/// assigned node whose `body.code` is the integer 200; the game is started
/// exactly for the first `register_ack` whose `code` is the integer 200.
pub proof fn law_offer_only_after_node_accepts(s: SignalView, data: JsonView, gl_key: Seq<char>, now: u64)
    ensures
        (signal_step(s, data, gl_key, now).1 == SignalAction::SendOffer) <==> (as_str(get(data, "id"@))
            == Some("start_game"@) && as_str(get(data, "from"@)) == Some(gl_key) && as_u64(
            get(get(data, "body"@), "code"@),
        ) == Some(200u64)),
        (signal_step(s, data, gl_key, now).1 == SignalAction::StartGame) <==> (as_str(get(data, "id"@))
            == Some("register_ack"@) && as_u64(get(data, "code"@)) == Some(200u64) && !s.started),
{
    reveal_strlit("start_game");
    reveal_strlit("register_ack");
    assert("start_game"@.len() != "register_ack"@.len());
}

/// The mail.gw code is read from the first message of the inbox alone: it is
/// the trimmed first `【(.*?)】` capture of that message's `intro`, and two
/// inboxes with the same first message give the same code.
pub proof fn law_gw_code_is_from_first_message(
    inbox: JsonView,
    ms: Seq<JsonView>,
    other: JsonView,
    ns: Seq<JsonView>,
)
    requires
        as_array(get(inbox, "hydra:member"@)) == Some(ms),
        ms.len() > 0,
        as_array(get(other, "hydra:member"@)) == Some(ns),
        ns.len() > 0,
    ensures
        crate::mail_gw::spec_captcha_from_inbox(inbox) == match as_str(get(ms[0], "intro"@)) {
            Some(intro) => match bracket_capture(intro) {
                Some(c) => Some(trimmed(c)),
                None => None,
            },
            None => None,
        },
        ms[0] == ns[0] ==> crate::mail_gw::spec_captcha_from_inbox(inbox)
            == crate::mail_gw::spec_captcha_from_inbox(other),
{
}

/// The mail.tm code is read from the first message of the inbox alone: the
/// trimmed text between its `intro`'s first `【` and the next `】`, when that
/// is six characters long.
pub proof fn law_tm_code_is_from_first_message(inbox: JsonView, ms: Seq<JsonView>)
    requires
        as_array(get(inbox, "hydra:member"@)) == Some(ms),
        ms.len() > 0,
    ensures
        crate::mail_tm::spec_captcha_from_inbox(inbox) == match as_str(get(ms[0], "intro"@)) {
            Some(intro) => match split_capture(intro) {
                Some(c) => if trimmed(c).len() == 6 {
                    Some(trimmed(c))
                } else {
                    None
                },
                None => None,
            },
            None => None,
        },
{
}

/// Gathering stops only when the page has no list or an empty one, when as
/// many items were gathered as `data.total` says (0 when absent), or when
/// the next page would pass the limit; otherwise the next page is read.
pub proof fn law_paging_stops_only_when_done(all: Seq<JsonView>, seen: Set<u64>, page: u32, value: JsonView)
    ensures
        ({
            let data = get(value, "data"@);
            let list = as_array(get(data, "data"@));
            let total: u64 = match as_u64(get(data, "total"@)) {
                Some(t) => t,
                None => 0u64,
            };
            let done = match list {
                None => true,
                Some(l) => l.len() == 0 || absorb(all, seen, l).0.len() >= total || page + 1 > MAX_PAGES,
            };
            &&& (page_step(all, seen, page, value).3 == PageNext::Done) <==> done
            &&& !done ==> page_step(all, seen, page, value).3 == PageNext::Fetch((page + 1) as u32)
        }),
{
}

/// A cost check marks a game playable exactly when its reply's `status` is
/// the integer 200; no reply, any other status, or none, is not playable.
pub proof fn law_playable_only_on_status_200(reply: Option<JsonView>)
    ensures
        spec_probe_playable(reply) <==> (reply matches Some(v) && as_u64(get(v, "status"@)) == Some(200u64)),
{
}

/// A `playGame` reply with status 201 always queues the account, whatever
/// form its queue id takes; a reply that does not queue hands over its
/// encrypted `data.result`, or is refused when it has none.
pub proof fn law_play_reply_queue_or_result(play: JsonView)
    ensures
        ({
            let status = as_u64(get(play, "status"@));
            let data = get(play, "data"@);
            let qid = get(data, "play_queue_id"@);
            let position: u64 = match as_u64(get(data, "queue_pos"@)) {
                Some(p) => p,
                None => 1u64,
            };
            let queued = status == Some(201u64) || (status == Some(200u64) && (qid is Str || qid is PosInt
                || qid is NegInt || qid is Float));
            &&& queued ==> (as_str(qid) matches Some(id) ==> spec_read_play_reply(play) == Ok::<
                (bool, Seq<char>, u64),
                StartError,
            >((true, id, position)))
            &&& queued ==> (as_u64(qid) matches Some(n) ==> spec_read_play_reply(play) == Ok::<
                (bool, Seq<char>, u64),
                StartError,
            >((true, decimal(n as nat), position)))
            &&& (queued && as_str(qid) is None && as_u64(qid) is None ==> spec_read_play_reply(play)
                == Err::<(bool, Seq<char>, u64), StartError>(StartError::QueuedWithoutId))
            &&& !queued ==> (as_str(get(data, "result"@)) matches Some(res) ==> spec_read_play_reply(play)
                == Ok::<(bool, Seq<char>, u64), StartError>((false, res, 0u64)))
            &&& (!queued && as_str(get(data, "result"@)) is None ==> spec_read_play_reply(play) == Err::<
                (bool, Seq<char>, u64),
                StartError,
            >(StartError::NoResult))
        }),
{
}

/// The SDP answer is taken exactly from an `rtc_sdp` message whose
/// `body.type` is `answer`: the answer becomes the JSON text of its
/// `body.sdp` and is stamped with the time; every other message leaves the
/// answer and its time as they were.
pub proof fn law_answer_only_from_answer_message(s: SignalView, data: JsonView, gl_key: Seq<char>, now: u64)
    ensures
        ({
            let body = get(data, "body"@);
            let is_answer = as_str(get(data, "id"@)) == Some("rtc_sdp"@) && as_str(get(body, "type"@))
                == Some("answer"@);
            let next = signal_step(s, data, gl_key, now).0;
            &&& is_answer ==> next.answer == Some(crate::json::json_text(get(body, "sdp"@)))
                && next.answered_at == Some(now)
            &&& !is_answer ==> next.answer == s.answer && next.answered_at == s.answered_at
        }),
{
    reveal_strlit("start_game");
    reveal_strlit("register_ack");
    reveal_strlit("rtc_sdp");
    reveal_strlit("answer");
    reveal_strlit("candidate");
    assert("rtc_sdp"@.len() != "register_ack"@.len());
    assert("rtc_sdp"@.len() != "start_game"@.len());
    assert("answer"@.len() != "candidate"@.len());
}

} // verus!
