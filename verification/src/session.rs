//! The single authoritative session slot.
//!
//! At most one authenticated session is "current" at any time. Installing
//! a new session replaces the old one; invalidation clears the slot for
//! future acquirers without touching handles already given out.

use vstd::prelude::*;

verus! {

broadcast use Seq::lemma_filter_push, Seq::lemma_take_succ_push;

/// An authenticated handle for one account. The provider's credential is
/// opaque to this library; what the logic reads of it is the account
/// identifier and a token distinguishing one login from the next.
#[derive(Debug, PartialEq, Eq)]
pub struct Session {
    pub apple_id: String,
    pub token: u64,
}

impl Session {
    /// A second handle to the same session, equal to this one.
    pub fn duplicate(&self) -> (r: Session)
        ensures
            r == *self,
    {
        Session { apple_id: self.apple_id.clone(), token: self.token }
    }
}

/// Why a session could not be handed out.
#[derive(Debug, PartialEq, Eq)]
pub enum AccountError {
    NotLoggedIn,
}

impl AccountError {
    /// The user-visible description of this error.
    pub fn message(&self) -> (r: String)
        ensures
            r@ == "Not logged in"@,
    {
        "Not logged in".to_owned()
    }
}

/// Holds the at-most-one current session.
pub struct SessionManager {
    pub current: Option<Session>,
}

/// The slot after `install`: the new session, unconditionally.
pub open spec fn install_result(m: SessionManager, s: Session) -> SessionManager {
    SessionManager { current: Some(s) }
}

/// The slot after `invalidate`: empty.
pub open spec fn invalidate_result(m: SessionManager) -> SessionManager {
    SessionManager { current: None }
}

/// What `acquire` returns for a given slot state.
pub open spec fn acquire_result(m: SessionManager) -> Result<Session, AccountError> {
    match m.current {
        Some(s) => Ok(s),
        None => Err(AccountError::NotLoggedIn),
    }
}

impl SessionManager {
    /// A fresh manager with nobody logged in.
    pub fn new() -> (r: SessionManager)
        ensures
            r.current is None,
    {
        SessionManager { current: None }
    }

    /// Replaces the current session unconditionally.
    pub fn install(&mut self, s: Session)
        ensures
            *final(self) == install_result(*old(self), s),
    {
        self.current = Some(s);
    }

    /// Clears the slot; idempotent. Outstanding handles are unaffected.
    pub fn invalidate(&mut self)
        ensures
            *final(self) == invalidate_result(*old(self)),
    {
        self.current = None;
    }

    /// A shared handle to the current session, or `NotLoggedIn` if the
    /// slot is empty.
    pub fn acquire(&self) -> (r: Result<Session, AccountError>)
        ensures
            r == acquire_result(*self),
    {
        match &self.current {
            Some(s) => Ok(s.duplicate()),
            None => Err(AccountError::NotLoggedIn),
        }
    }

    /// The account identifier of the current session, if any.
    pub fn logged_in_as(&self) -> (r: Option<String>)
        ensures
            match self.current {
                Some(s) => r matches Some(id) && id@ == s.apple_id@,
                None => r is None,
            },
    {
        match &self.current {
            Some(s) => Some(s.apple_id.clone()),
            None => None,
        }
    }
}

/// The list already holds this account identifier.
pub open spec fn has_account_id(ids: Seq<String>, id: Seq<char>) -> bool {
    exists|k: int| 0 <= k < ids.len() && ids[k]@ == id
}

/// Keeping every identifier other than `id`, as a first-class predicate.
pub open spec fn keeps_other_ids(id: Seq<char>) -> spec_fn(String) -> bool {
    |s: String| s@ != id
}

/// Adds an account identifier to the stored list of known accounts,
/// unless an equal one is already there.
pub fn remember_account_id(ids: &mut Vec<String>, id: &String)
    ensures
        has_account_id(old(ids)@, id@) ==> *final(ids) == *old(ids),
        !has_account_id(old(ids)@, id@) ==> final(ids)@ == old(ids)@.push(*id),
{
    let n = ids.len();
    let mut j: usize = 0;
    while j < n
        invariant
            j <= n,
            n == ids@.len(),
            *ids == *old(ids),
            forall|k: int| 0 <= k < j ==> ids@[k]@ != id@,
        decreases n - j,
    {
        if ids[j].eq(id) {
            return ;
        }
        j += 1;
    }
    ids.push(id.clone());
}

/// Removes every occurrence of an account identifier from the stored
/// list, keeping the others in order.
pub fn forget_account_id(ids: &mut Vec<String>, id: &String)
    ensures
        final(ids)@ == old(ids)@.filter(keeps_other_ids(id@)),
{
    let n = ids.len();
    let mut out: Vec<String> = Vec::new();
    let ghost all = ids@;
    proof {
        assert(out@ =~= all.take(0).filter(keeps_other_ids(id@)));
    }
    let mut j: usize = 0;
    while j < n
        invariant
            j <= n,
            n == all.len(),
            *ids == *old(ids),
            all == ids@,
            out@ == all.take(j as int).filter(keeps_other_ids(id@)),
        decreases n - j,
    {
        let s = &ids[j];
        proof {
            let kept = keeps_other_ids(id@);
            assert(all.take(j as int).push(all[j as int]).filter(kept) == if kept(
                all[j as int],
            ) {
                all.take(j as int).filter(kept).push(all[j as int])
            } else {
                all.take(j as int).filter(kept)
            });
        }
        if !s.eq(id) {
            out.push(s.clone());
        }
        j += 1;
    }
    proof {
        assert(all.take(j as int) =~= all);
    }
    *ids = out;
}

/// Law: on any sequence of `install`/`acquire`/`invalidate`, an `acquire`
/// that follows an `invalidate` with no `install` in between returns
/// `NotLoggedIn`, and an `acquire` that follows `install(s)` with no later
/// `install` or `invalidate` returns exactly `s`. (`acquire` itself never
/// changes the slot, so the claim holds over whole call sequences.)
pub proof fn lemma_session_slot(m: SessionManager, s: Session)
    ensures
        acquire_result(invalidate_result(m)) == Err::<Session, AccountError>(
            AccountError::NotLoggedIn,
        ),
        acquire_result(install_result(m, s)) == Ok::<Session, AccountError>(s),
{
}

} // verus!
