//! The pool of ready accounts and the decisions of its stocking workers.
use vstd::prelude::*;
use std::collections::VecDeque;
use crate::accountdb::ACCOUNT as StoredAccount;

verus! {

broadcast use {vstd::seq::group_seq_axioms, vstd::std_specs::vec::group_vec_axioms};

/// An account waiting in the pool.
#[derive(Debug)]
pub struct ACCOUNT {
    pub sn: Option<String>,
    pub token: Option<String>,
    pub email: Option<String>,
    pub password: Option<String>,
    pub public_id: Option<String>,
}

pub struct PoolAccountView {
    pub sn: Option<Seq<char>>,
    pub token: Option<Seq<char>>,
    pub email: Option<Seq<char>>,
    pub password: Option<Seq<char>>,
    pub public_id: Option<Seq<char>>,
}

impl View for ACCOUNT {
    type V = PoolAccountView;

    closed spec fn view(&self) -> PoolAccountView {
        PoolAccountView {
            sn: crate::json::owned_text(self.sn),
            token: crate::json::owned_text(self.token),
            email: crate::json::owned_text(self.email),
            password: crate::json::owned_text(self.password),
            public_id: crate::json::owned_text(self.public_id),
        }
    }
}

impl ACCOUNT {
    /// A complete account.
    pub fn new(token: String, sn: String, email: String, password: String, public_id: String) -> (r:
        Self)
        ensures
            r@.sn == Some(sn@),
            r@.token == Some(token@),
            r@.email == Some(email@),
            r@.password == Some(password@),
            r@.public_id == Some(public_id@),
    {
        return Self {
            sn: Some(sn),
            token: Some(token),
            email: Some(email),
            password: Some(password),
            public_id: Some(public_id),
        };
    }

    /// An account known only by its public id.
    pub fn stub(public_id: String) -> (r: Self)
        ensures
            r@.sn is None,
            r@.token is None,
            r@.email is None,
            r@.password is None,
            r@.public_id == Some(public_id@),
    {
        return Self { sn: None, token: None, email: None, password: None, public_id: Some(public_id) };
    }

    pub fn public_id(&self) -> (r: Option<&str>)
        ensures
            match r {
                Some(p) => self@.public_id == Some(p@),
                None => self@.public_id is None,
            },
    {
        match &self.public_id {
            Some(p) => Some(p.as_str()),
            None => None,
        }
    }

    /// The serial and the token.
    pub fn into_parts(self) -> (r: (Option<String>, Option<String>))
        ensures
            crate::json::owned_text(r.0) == self@.sn,
            crate::json::owned_text(r.1) == self@.token,
    {
        (self.sn, self.token)
    }
}

/// The pool account made from a stored account.
pub open spec fn stocked(a: StoredAccount) -> PoolAccountView {
    PoolAccountView {
        sn: Some(a.sn@),
        token: Some(a.token@),
        email: Some(a.email@),
        password: Some(a.password@),
        public_id: Some(a.public_id@),
    }
}

/// The accounts ready to be handed out, first in first out.
pub struct Stock {
    accounts: VecDeque<ACCOUNT>,
}

impl Stock {
    pub closed spec fn contents(&self) -> Seq<PoolAccountView> {
        self.accounts@.map_values(|a: ACCOUNT| a@)
    }

    /// The stock restored from the stored accounts, in their order.
    pub fn load(stored: Vec<StoredAccount>) -> (r: Stock)
        ensures
            r.contents() == stored@.map_values(|a: StoredAccount| stocked(a)),
    {
        let mut accounts: VecDeque<ACCOUNT> = VecDeque::new();
        let mut i: usize = 0;
        while i < stored.len()
            invariant
                i <= stored@.len(),
                accounts@.map_values(|a: ACCOUNT| a@) =~= stored@.take(i as int).map_values(
                    |a: StoredAccount| stocked(a),
                ),
            decreases stored@.len() - i,
        {
            let a = &stored[i];
            let p = ACCOUNT::new(
                a.token.clone(),
                a.sn.clone(),
                a.email.clone(),
                a.password.clone(),
                a.public_id.clone(),
            );
            let ghost before = accounts@;
            accounts.push_back(p);
            proof {
                assert(stored@.take(i as int + 1) =~= stored@.take(i as int).push(stored@[i as int]));
                assert(accounts@.map_values(|a: ACCOUNT| a@) =~= before.map_values(|a: ACCOUNT| a@).push(p@));
            }
            i = i + 1;
        }
        assert(stored@.take(stored@.len() as int) =~= stored@);
        Stock { accounts }
    }

    /// Takes the oldest account.
    pub fn pop_front(&mut self) -> (r: Option<ACCOUNT>)
        ensures
            match r {
                Some(a) => old(self).contents().len() > 0 && a@ == old(self).contents()[0]
                    && final(self).contents() == old(self).contents().drop_first(),
                None => old(self).contents().len() == 0 && final(self).contents() == old(
                    self,
                ).contents(),
            },
    {
        let r = self.accounts.pop_front();
        proof {
            if r is Some {
                assert(self.accounts@.map_values(|a: ACCOUNT| a@) =~= old(self).accounts@.map_values(
                    |a: ACCOUNT| a@,
                ).drop_first());
            }
        }
        r
    }

    /// Adds an account at the back.
    pub fn push_back(&mut self, a: ACCOUNT)
        ensures
            final(self).contents() == old(self).contents().push(a@),
    {
        self.accounts.push_back(a);
        assert(self.accounts@.map_values(|a: ACCOUNT| a@) =~= old(self).accounts@.map_values(
            |a: ACCOUNT| a@,
        ).push(a@));
    }

    pub fn len(&self) -> (r: usize)
        ensures
            r == self.contents().len(),
    {
        self.accounts.len()
    }
}

/// The most workers the pool runs at once.
pub const MAX_WORKERS: u8 = 40;

/// How long a caller waits for a new account, in seconds.
pub const WAIT_TIMEOUT: u64 = 30;

/// The longest back-off after failed builds, in seconds.
pub const MAX_BACKOFF_SECS: u64 = 60;

/// Idle rounds after which a worker with nothing to do stops.
pub const IDLE_CYCLES_BEFORE_EXIT: u32 = 60;

/// How a request for one more worker is answered, given how many run already.
#[derive(Debug, PartialEq, Eq, Structural)]
pub enum Dispatch {
    /// Start it; fewer than 3 run.
    Start,
    /// Start it; 3 to 9 run, more than needed.
    StartMany,
    /// Start it; 10 to 39 run.
    StartTooMany,
    /// Refuse: the limit is reached.
    Refuse,
}

pub fn dispatch(running: u8) -> (r: Dispatch)
    ensures
        r == (if running < 3 {
            Dispatch::Start
        } else if running < 10 {
            Dispatch::StartMany
        } else if running < MAX_WORKERS {
            Dispatch::StartTooMany
        } else {
            Dispatch::Refuse
        }),
{
    if running < 3 {
        Dispatch::Start
    } else if running < 10 {
        Dispatch::StartMany
    } else if running < MAX_WORKERS {
        Dispatch::StartTooMany
    } else {
        Dispatch::Refuse
    }
}

/// How many accounts are still to be made: the target less the stock less
/// the builds under way, never below zero.
pub fn stock_need(target: usize, stock: usize, inflight: usize) -> (r: usize)
    ensures
        r == (if target > stock + inflight {
            target - stock - inflight
        } else {
            0
        }),
{
    target.saturating_sub(stock).saturating_sub(inflight)
}

/// The pause after the `fails`-th failed build in a row, in seconds:
/// three seconds doubled per failure, at most five doublings, capped at a minute.
pub open spec fn spec_backoff(fails: u32) -> u64 {
    let k: u32 = if fails < 5 {
        fails
    } else {
        5
    };
    let pause: int = 3 * (vstd::arithmetic::power2::pow2(k as nat) as int);
    if pause < MAX_BACKOFF_SECS {
        pause as u64
    } else {
        MAX_BACKOFF_SECS
    }
}

pub fn backoff_secs(fails: u32) -> (r: u64)
    ensures
        r == spec_backoff(fails),
{
    let k: u32 = if fails < 5 {
        fails
    } else {
        5
    };
    let shifted: u64 = if k == 0 {
        1
    } else if k == 1 {
        2
    } else if k == 2 {
        4
    } else if k == 3 {
        8
    } else if k == 4 {
        16
    } else {
        32
    };
    proof {
        vstd::arithmetic::power2::lemma2_to64();
    }
    let pause = 3 * shifted;
    if pause < MAX_BACKOFF_SECS {
        pause
    } else {
        MAX_BACKOFF_SECS
    }
}

/// What a stocking worker does next.
#[derive(Debug, PartialEq, Eq, Structural)]
pub enum WorkerStep {
    /// Build one account.
    Build,
    /// Nothing to do: sleep five seconds and look again.
    Idle,
    /// Nothing to do for long enough: stop.
    Exit,
}

/// The state a stocking worker carries from one round to the next.
#[derive(Debug)]
pub struct Worker {
    pub consecutive_fails: u32,
    pub idle_cycles: u32,
}

impl Worker {
    pub open spec fn wf(&self) -> bool {
        self.idle_cycles < IDLE_CYCLES_BEFORE_EXIT
    }

    pub fn new() -> (r: Worker)
        ensures
            r.wf(),
            r.consecutive_fails == 0,
            r.idle_cycles == 0,
    {
        Worker { consecutive_fails: 0, idle_cycles: 0 }
    }

    /// One round: with accounts to make, build; else count an idle round
    /// and stop after sixty of them in a row.
    pub fn next_step(&mut self, need: usize) -> (r: WorkerStep)
        requires
            old(self).wf(),
        ensures
            final(self).consecutive_fails == old(self).consecutive_fails,
            need > 0 ==> r == WorkerStep::Build && final(self).idle_cycles == 0 && final(self).wf(),
            need == 0 && old(self).idle_cycles + 1 >= IDLE_CYCLES_BEFORE_EXIT ==> r
                == WorkerStep::Exit && final(self).idle_cycles == old(self).idle_cycles + 1,
            need == 0 && old(self).idle_cycles + 1 < IDLE_CYCLES_BEFORE_EXIT ==> r
                == WorkerStep::Idle && final(self).idle_cycles == old(self).idle_cycles + 1
                && final(self).wf(),
    {
        if need == 0 {
            self.idle_cycles = self.idle_cycles + 1;
            if self.idle_cycles >= IDLE_CYCLES_BEFORE_EXIT {
                WorkerStep::Exit
            } else {
                WorkerStep::Idle
            }
        } else {
            self.idle_cycles = 0;
            WorkerStep::Build
        }
    }

    /// After a build that worked.
    pub fn built(&mut self)
        ensures
            final(self).consecutive_fails == 0,
            final(self).idle_cycles == old(self).idle_cycles,
    {
        self.consecutive_fails = 0;
    }

    /// After a build that failed: the pause before the next round.
    pub fn build_failed(&mut self) -> (r: u64)
        requires
            old(self).consecutive_fails < u32::MAX,
        ensures
            final(self).consecutive_fails == old(self).consecutive_fails + 1,
            final(self).idle_cycles == old(self).idle_cycles,
            r == spec_backoff(final(self).consecutive_fails),
    {
        self.consecutive_fails = self.consecutive_fails + 1;
        backoff_secs(self.consecutive_fails)
    }
}

} // verus!
