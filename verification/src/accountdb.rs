//! The account records, and the in-memory side of the account store: the
//! accounts handed out and the play sessions waiting in a queue.
//!
//! The stocked accounts and the game catalogue live on disk (LMDB through
//! `heed`); the functions here take what was read from there.
use vstd::prelude::*;
use crate::probe::GameProbe;
use crate::textmap::{is_fresh, Stamped, TextMap};
use crate::text::to_hex_lower;
use sha2::Digest;

verus! {

broadcast use {vstd::seq::group_seq_axioms, vstd::std_specs::vec::group_vec_axioms};

/// A stocked account, as the store keeps it.
#[derive(Debug)]
pub struct ACCOUNT {
    pub sn: String,
    pub token: String,
    pub email: String,
    pub password: String,
    pub public_id: String,
}

/// What a client is given of an account: the login, never the device
/// serial or the session token.
#[derive(Debug)]
pub struct PublicAccount {
    pub email: String,
    pub password: String,
    pub public_id: String,
}

pub struct AccountView {
    pub sn: Seq<char>,
    pub token: Seq<char>,
    pub email: Seq<char>,
    pub password: Seq<char>,
    pub public_id: Seq<char>,
}

impl View for ACCOUNT {
    type V = AccountView;

    open spec fn view(&self) -> AccountView {
        AccountView {
            sn: self.sn@,
            token: self.token@,
            email: self.email@,
            password: self.password@,
            public_id: self.public_id@,
        }
    }
}

pub struct PublicView {
    pub email: Seq<char>,
    pub password: Seq<char>,
    pub public_id: Seq<char>,
}

impl View for PublicAccount {
    type V = PublicView;

    open spec fn view(&self) -> PublicView {
        PublicView { email: self.email@, password: self.password@, public_id: self.public_id@ }
    }
}

/// The public part of an account.
pub open spec fn public_part(a: AccountView) -> PublicView {
    PublicView { email: a.email, password: a.password, public_id: a.public_id }
}

impl PublicAccount {
    /// The public part of an account.
    pub fn from(a: &ACCOUNT) -> (r: PublicAccount)
        ensures
            r.email == a.email,
            r.password == a.password,
            r.public_id == a.public_id,
    {
        PublicAccount {
            email: a.email.clone(),
            password: a.password.clone(),
            public_id: a.public_id.clone(),
        }
    }
}

impl ACCOUNT {
    pub fn duplicate(&self) -> (r: ACCOUNT)
        ensures
            r == *self,
    {
        ACCOUNT {
            sn: self.sn.clone(),
            token: self.token.clone(),
            email: self.email.clone(),
            password: self.password.clone(),
            public_id: self.public_id.clone(),
        }
    }
}

/// An account that was handed out: its serial and token stay in memory so
/// that a game can be started for it.
#[derive(Debug)]
pub struct ActiveAccount {
    pub public_id: String,
    pub sn: String,
    pub token: String,
    pub created_at: u64,
}

pub struct ActiveView {
    pub public_id: Seq<char>,
    pub sn: Seq<char>,
    pub token: Seq<char>,
    pub created_at: u64,
}

impl View for ActiveAccount {
    type V = ActiveView;

    open spec fn view(&self) -> ActiveView {
        ActiveView {
            public_id: self.public_id@,
            sn: self.sn@,
            token: self.token@,
            created_at: self.created_at,
        }
    }
}

impl ActiveAccount {
    pub fn duplicate(&self) -> (r: ActiveAccount)
        ensures
            r == *self,
    {
        ActiveAccount {
            public_id: self.public_id.clone(),
            sn: self.sn.clone(),
            token: self.token.clone(),
            created_at: self.created_at,
        }
    }
}

impl Stamped for ActiveAccount {
    open spec fn stamp(&self) -> u64 {
        self.created_at
    }

    fn created_at(&self) -> (r: u64) {
        self.created_at
    }
}

/// A play request that waits in the service's queue.
#[derive(Debug)]
pub struct PlaySession {
    pub game_key: String,
    pub offer_sdp: String,
    pub queue_id: String,
    pub created_at: u64,
}

pub struct SessionView {
    pub game_key: Seq<char>,
    pub offer_sdp: Seq<char>,
    pub queue_id: Seq<char>,
    pub created_at: u64,
}

impl View for PlaySession {
    type V = SessionView;

    open spec fn view(&self) -> SessionView {
        SessionView {
            game_key: self.game_key@,
            offer_sdp: self.offer_sdp@,
            queue_id: self.queue_id@,
            created_at: self.created_at,
        }
    }
}

impl PlaySession {
    pub fn duplicate(&self) -> (r: PlaySession)
        ensures
            r == *self,
    {
        PlaySession {
            game_key: self.game_key.clone(),
            offer_sdp: self.offer_sdp.clone(),
            queue_id: self.queue_id.clone(),
            created_at: self.created_at,
        }
    }
}

impl Stamped for PlaySession {
    open spec fn stamp(&self) -> u64 {
        self.created_at
    }

    fn created_at(&self) -> (r: u64) {
        self.created_at
    }
}

/// The handed-out account that `pop_account` records.
pub open spec fn handed(public_id: Seq<char>, a: AccountView, now: u64) -> ActiveView {
    ActiveView { public_id, sn: a.sn, token: a.token, created_at: now }
}

/// The handed-out accounts after `pop_account`.
pub open spec fn spec_pop(
    m: Map<Seq<char>, ActiveView>,
    public_id: Seq<char>,
    stored: Option<AccountView>,
    now: u64,
) -> Map<Seq<char>, ActiveView> {
    match stored {
        Some(a) => m.insert(public_id, handed(public_id, a, now)),
        None => m,
    }
}

/// The queued sessions after `put_session`: the session is stamped `now`.
pub open spec fn spec_put_session(
    m: Map<Seq<char>, SessionView>,
    public_id: Seq<char>,
    s: SessionView,
    now: u64,
) -> Map<Seq<char>, SessionView> {
    m.insert(public_id, SessionView { created_at: now, ..s })
}

/// The handed-out accounts still fresh at `now`.
pub open spec fn fresh_active(m: Map<Seq<char>, ActiveView>, now: u64) -> Map<Seq<char>, ActiveView> {
    m.restrict(m.dom().filter(|k: Seq<char>| is_fresh(m[k].created_at, now)))
}

/// The queued sessions still fresh at `now`.
pub open spec fn fresh_sessions(m: Map<Seq<char>, SessionView>, now: u64) -> Map<
    Seq<char>,
    SessionView,
> {
    m.restrict(m.dom().filter(|k: Seq<char>| is_fresh(m[k].created_at, now)))
}

/// The accounts handed out and the queued play sessions, each by public id.
pub struct AccountDb {
    active: TextMap<ActiveAccount>,
    sessions: TextMap<PlaySession>,
}

impl AccountDb {
    pub closed spec fn wf(&self) -> bool {
        self.active.wf() && self.sessions.wf()
    }

    /// The accounts handed out, by public id.
    pub closed spec fn active_map(&self) -> Map<Seq<char>, ActiveView> {
        self.active.contents().map_values(|a: ActiveAccount| a@)
    }

    /// The queued play sessions, by public id.
    pub closed spec fn session_map(&self) -> Map<Seq<char>, SessionView> {
        self.sessions.contents().map_values(|s: PlaySession| s@)
    }

    /// A store with nothing handed out and nothing queued.
    pub fn new() -> (r: AccountDb)
        ensures
            r.wf(),
            r.active_map() == Map::<Seq<char>, ActiveView>::empty(),
            r.session_map() == Map::<Seq<char>, SessionView>::empty(),
    {
        let r = AccountDb { active: TextMap::new(), sessions: TextMap::new() };
        assert(r.active_map() =~= Map::<Seq<char>, ActiveView>::empty());
        assert(r.session_map() =~= Map::<Seq<char>, SessionView>::empty());
        r
    }

    /// Hands out the account `stored` that was read from the stock under
    /// `public_id` (and that the caller removes from there): its serial and
    /// token are kept as active, stamped `now`, and its public part is
    /// returned. Nothing happens when the stock had no such account.
    pub fn pop_account(&mut self, public_id: &str, stored: Option<ACCOUNT>, now: u64) -> (r: Option<
        PublicAccount,
    >)
        requires
            old(self).wf(),
        ensures
            final(self).wf(),
            final(self).session_map() == old(self).session_map(),
            final(self).active_map() == spec_pop(
                old(self).active_map(),
                public_id@,
                match stored {
                    Some(a) => Some(a@),
                    None => None,
                },
                now,
            ),
            match stored {
                None => r is None,
                Some(a) => r matches Some(p) && p@ == public_part(a@),
            },
    {
        match stored {
            None => None,
            Some(account) => {
                let handed = ActiveAccount {
                    public_id: public_id.to_owned(),
                    sn: account.sn.clone(),
                    token: account.token.clone(),
                    created_at: now,
                };
                let public = PublicAccount::from(&account);
                let ghost before = self.active.contents();
                self.active.insert(public_id.to_owned(), handed);
                assert(self.active_map() =~= before.map_values(|a: ActiveAccount| a@).insert(
                    public_id@,
                    handed@,
                ));
                Some(public)
            },
        }
    }

    /// The account handed out under `public_id`.
    pub fn active(&self, public_id: &str) -> (r: Option<ActiveAccount>)
        ensures
            match r {
                Some(a) => self.active_map().contains_key(public_id@) && a@ == self.active_map()[public_id@],
                None => !self.active_map().contains_key(public_id@),
            },
    {
        match self.active.get(public_id) {
            Some(a) => Some(a.duplicate()),
            None => None,
        }
    }

    /// Forgets the account handed out under `public_id` once it has been
    /// played; whether there was one.
    pub fn consume(&mut self, public_id: &str) -> (r: bool)
        requires
            old(self).wf(),
        ensures
            final(self).wf(),
            r == old(self).active_map().contains_key(public_id@),
            final(self).active_map() == old(self).active_map().remove(public_id@),
            final(self).session_map() == old(self).session_map(),
    {
        let ghost before = self.active.contents();
        let r = self.active.remove(public_id);
        assert(self.active_map() =~= before.map_values(|a: ActiveAccount| a@).remove(public_id@));
        r
    }

    /// Records the queued play of `public_id`, stamped `now` (the stamp of
    /// `session` is not used).
    pub fn put_session(&mut self, public_id: &str, session: &PlaySession, now: u64)
        requires
            old(self).wf(),
        ensures
            final(self).wf(),
            final(self).active_map() == old(self).active_map(),
            final(self).session_map() == spec_put_session(
                old(self).session_map(),
                public_id@,
                session@,
                now,
            ),
    {
        let mut s = session.duplicate();
        s.created_at = now;
        let ghost before = self.sessions.contents();
        self.sessions.insert(public_id.to_owned(), s);
        assert(self.session_map() =~= before.map_values(|x: PlaySession| x@).insert(
            public_id@,
            s@,
        ));
    }

    /// The queued play of `public_id`.
    pub fn get_session(&self, public_id: &str) -> (r: Option<PlaySession>)
        ensures
            match r {
                Some(s) => self.session_map().contains_key(public_id@) && s@ == self.session_map()[public_id@],
                None => !self.session_map().contains_key(public_id@),
            },
    {
        match self.sessions.get(public_id) {
            Some(s) => Some(s.duplicate()),
            None => None,
        }
    }

    /// Forgets the queued play of `public_id`.
    pub fn delete_session(&mut self, public_id: &str)
        requires
            old(self).wf(),
        ensures
            final(self).wf(),
            final(self).active_map() == old(self).active_map(),
            final(self).session_map() == old(self).session_map().remove(public_id@),
    {
        let ghost before = self.sessions.contents();
        self.sessions.remove(public_id);
        assert(self.session_map() =~= before.map_values(|x: PlaySession| x@).remove(public_id@));
    }

    /// Drops every handed-out account and every queued play that is an hour
    /// old or older at `now`; how many entries were dropped.
    pub fn sweep_stale(&mut self, now: u64) -> (r: usize)
        requires
            old(self).wf(),
            old(self).active_map().len() + old(self).session_map().len() <= usize::MAX,
        ensures
            final(self).wf(),
            final(self).active_map() == fresh_active(old(self).active_map(), now),
            final(self).session_map() == fresh_sessions(old(self).session_map(), now),
            r == (old(self).active_map().len() - final(self).active_map().len()) + (old(
                self,
            ).session_map().len() - final(self).session_map().len()),
    {
        let ghost a0 = self.active.contents();
        let ghost s0 = self.sessions.contents();
        let a = self.active.retain_fresh(now);
        let s = self.sessions.retain_fresh(now);
        proof {
            assert(a0.map_values(|x: ActiveAccount| x@).dom() =~= a0.dom());
            assert(s0.map_values(|x: PlaySession| x@).dom() =~= s0.dom());
            assert(self.active_map() =~= fresh_active(a0.map_values(|x: ActiveAccount| x@), now));
            assert(self.session_map() =~= fresh_sessions(s0.map_values(|x: PlaySession| x@), now));
            assert(self.active_map().dom() =~= self.active.contents().dom());
            assert(self.session_map().dom() =~= self.sessions.contents().dom());
        }
        a + s
    }

    /// Whether the catalogue entry read for a game marks it playable; an
    /// absent entry does not.
    pub fn is_playable(stored: Option<&GameProbe>) -> (r: bool)
        ensures
            r == match stored {
                Some(g) => g.playable,
                None => false,
            },
    {
        match stored {
            Some(g) => g.playable,
            None => false,
        }
    }

    /// How many catalogue entries are playable.
    pub fn playable_games(games: &Vec<GameProbe>) -> (r: usize)
        ensures
            r == crate::probe::count_playable(games@),
    {
        crate::probe::playable_count(games)
    }
}

/// The SHA-256 digest of `data`.
pub uninterp spec fn sha256_digest(data: Seq<u8>) -> Seq<u8>;

/// `sha2::Sha256::digest(data)`. Stated: the result is the named digest of
/// the data, 32 bytes long.
#[verifier::external_body]
fn sha256(data: &[u8]) -> (r: Vec<u8>)
    ensures
        r@ == sha256_digest(data@),
        r@.len() == 32,
{
    sha2::Sha256::digest(data).to_vec()
}

/// The public id of an account: the lower-case hexadecimal SHA-256 digest
/// of its serial's bytes followed by its token's bytes.
pub open spec fn spec_public_id(sn: Seq<char>, token: Seq<char>) -> Seq<char> {
    crate::text::hex_lower(sha256_digest(vstd::utf8::encode_utf8(sn) + vstd::utf8::encode_utf8(token)))
}

pub fn new_public_id(sn: &str, token: &str) -> (r: String)
    ensures
        r@ == spec_public_id(sn@, token@),
        r@.len() == 64,
{
    let a = sn.as_bytes();
    let b = token.as_bytes();
    let mut data: Vec<u8> = Vec::new();
    let mut i: usize = 0;
    while i < a.len()
        invariant
            i <= a@.len(),
            data@ =~= a@.take(i as int),
        decreases a@.len() - i,
    {
        data.push(a[i]);
        i = i + 1;
    }
    let mut j: usize = 0;
    while j < b.len()
        invariant
            j <= b@.len(),
            data@ =~= a@ + b@.take(j as int),
        decreases b@.len() - j,
    {
        data.push(b[j]);
        j = j + 1;
    }
    assert(a@.take(a@.len() as int) =~= a@);
    assert(b@.take(b@.len() as int) =~= b@);
    let digest = sha256(data.as_slice());
    let r = to_hex_lower(digest.as_slice());
    proof {
        crate::text::lemma_hex_lower_len(digest@);
    }
    r
}

} // verus!
