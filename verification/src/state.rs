//! What the identity engine knows of an entity.

use vstd::prelude::*;

use crate::freshness::is_within;
use crate::freshness::within;
use crate::store::Store;

verus! {

#[derive(Debug, Clone)]
pub struct AuthState {
    /// The times of the logins, in the order in which they were reported.
    pub logins: Vec<u64>,
    pub token_issued_at: Option<u64>,
    pub token_used: bool,
}

/// What is known of an entity, with its logins as a sequence.
#[verifier::ext_equal]
pub struct AuthView {
    pub logins: Seq<u64>,
    pub token_issued_at: Option<u64>,
    pub token_used: bool,
}

impl View for AuthState {
    type V = AuthView;

    open spec fn view(&self) -> AuthView {
        AuthView {
            logins: self.logins@,
            token_issued_at: self.token_issued_at,
            token_used: self.token_used,
        }
    }
}

impl AuthView {
    /// What is known of an entity that no event has mentioned.
    pub open spec fn blank() -> AuthView {
        AuthView { logins: Seq::empty(), token_issued_at: None, token_used: false }
    }

    /// Whether some login still counts at `ts`.
    pub open spec fn logged_in(self, ts: u64, window: u64) -> bool {
        exists|i: int| 0 <= i < self.logins.len() && within(#[trigger] self.logins[i], ts, window)
    }
}

impl Default for AuthState {
    fn default() -> (r: Self)
        ensures
            r@ == AuthView::blank(),
    {
        let r = AuthState { logins: Vec::new(), token_issued_at: None, token_used: false };
        assert(r@ =~= AuthView::blank());
        r
    }
}

impl AuthState {
    pub fn has_login(&self) -> (r: bool)
        ensures
            r == (self@.logins.len() > 0),
    {
        self.logins.len() > 0
    }

    /// The login that was reported last.
    pub fn last_login(&self) -> (r: Option<u64>)
        ensures
            r == (if self@.logins.len() > 0 {
                Some(self@.logins.last())
            } else {
                None
            }),
    {
        if self.logins.len() > 0 {
            Some(self.logins[self.logins.len() - 1])
        } else {
            None
        }
    }

    /// Most recent login within `window` seconds of `ts`, if any.
    pub fn login_within(&self, ts: u64, window: u64) -> (r: Option<u64>)
        ensures
            r is Some <==> self@.logged_in(ts, window),
            r matches Some(t) ==> {
                &&& self@.logins.contains(t)
                &&& within(t, ts, window)
                &&& forall|i: int|
                    0 <= i < self@.logins.len() && within(#[trigger] self@.logins[i], ts, window)
                        ==> self@.logins[i] <= t
            },
    {
        let mut best: Option<u64> = None;
        let mut i: usize = 0;
        while i < self.logins.len()
            invariant
                i <= self.logins.len(),
                match best {
                    Some(t) => {
                        &&& self.logins@.contains(t)
                        &&& within(t, ts, window)
                        &&& forall|j: int|
                            0 <= j < i && within(#[trigger] self.logins@[j], ts, window)
                                ==> self.logins@[j] <= t
                    },
                    None => forall|j: int| 0 <= j < i ==> !within(#[trigger] self.logins@[j], ts, window),
                },
            decreases self.logins.len() - i,
        {
            let t: u64 = self.logins[i];
            if is_within(t, ts, window) {
                best = match best {
                    Some(b) => if t > b {
                        Some(t)
                    } else {
                        Some(b)
                    },
                    None => Some(t),
                };
            }
            i += 1;
        }
        proof {
            if let Some(t) = best {
                let j = choose|j: int| 0 <= j < self.logins@.len() && self.logins@[j] == t;
                assert(within(self@.logins[j], ts, window));
            }
        }
        best
    }
}

pub type StateStore = Store<AuthState>;

} // verus!
