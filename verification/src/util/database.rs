use vstd::prelude::*;

use crate::util::account::Account;
use crate::util::errors::AuthError;
use crate::util::session::{clone_session, Session};
use crate::util::text::{is_lower, lower_seq};
use crate::util::user::User;

verus! {

/// The persistent state of the authentication core: one row set per table
/// and the next fresh row id. The well-formedness predicate `wf` carries the
/// uniqueness constraints that the storage layer enforces.
pub struct Database {
    pub users: Vec<User>,
    pub accounts: Vec<Account>,
    pub sessions: Vec<Session>,
    pub next_id: u64,
}

/// The row of `users` carrying this email; meaningful when one exists.
pub open spec fn user_row_with_email(users: Seq<User>, email: Seq<char>) -> User {
    users[choose|i: int| 0 <= i < users.len() && (#[trigger] users[i]).email@ == email]
}

/// The sessions of `s` that survive a logout with the given token and email:
/// exactly those matching neither.
pub open spec fn surviving_sessions(s: Seq<Session>, token: Seq<char>, email: Seq<char>) -> Seq<
    Session,
> {
    s.filter(|x: Session| x.token@ != token && x.email@ != email)
}

impl Database {
    /// Some user row carries exactly this (lowered) email.
    pub open spec fn has_user_with_email(self, email: Seq<char>) -> bool {
        exists|i: int|
            0 <= i < self.users@.len() && (#[trigger] self.users@[i]).email@ == email
    }

    /// The user row carrying this email; meaningful when one exists, and
    /// unique by well-formedness.
    pub open spec fn user_with_email(self, email: Seq<char>) -> User {
        user_row_with_email(self.users@, email)
    }

    /// Some account row binds this user to this provider.
    pub open spec fn has_account_for(self, user_id: u64, provider: Seq<char>) -> bool {
        exists|i: int|
            0 <= i < self.accounts@.len() && (#[trigger] self.accounts@[i]).user_id == user_id
                && self.accounts@[i].provider@ == provider
    }

    /// Some session row carries exactly this token.
    pub open spec fn has_session_with_token(self, token: Seq<char>) -> bool {
        exists|i: int|
            0 <= i < self.sessions@.len() && (#[trigger] self.sessions@[i]).token@ == token
    }

    /// Some session row carries this token, snapshots this email, and has
    /// not yet expired at `now`.
    pub open spec fn has_valid_session(self, token: Seq<char>, email: Seq<char>, now: u64) -> bool {
        exists|j: int|
            0 <= j < self.sessions@.len() && (#[trigger] self.sessions@[j]).token@ == token
                && self.sessions@[j].email@ == email && now <= self.sessions@[j].expire_date
    }

    /// The server-side validation of one claimed cookie pair: some user
    /// carries the lowered email cookie, and the session under the token
    /// cookie snapshots exactly that email and has not expired at `now`.
    pub open spec fn valid_cookie_pair(self, token: Seq<char>, email: Seq<char>, now: u64) -> bool {
        &&& self.has_user_with_email(lower_seq(email))
        &&& self.has_valid_session(token, lower_seq(email), now)
    }

    pub open spec fn users_wf(self) -> bool {
        &&& (forall|i: int|
            0 <= i < self.users@.len() ==> (#[trigger] self.users@[i]).id < self.next_id)
        &&& (forall|i: int|
            0 <= i < self.users@.len() ==> is_lower((#[trigger] self.users@[i]).email@))
        &&& (forall|i: int, j: int|
            #![trigger self.users@[i], self.users@[j]]
            0 <= i < self.users@.len() && 0 <= j < self.users@.len() && i != j
                ==> self.users@[i].id != self.users@[j].id)
        &&& (forall|i: int, j: int|
            #![trigger self.users@[i], self.users@[j]]
            0 <= i < self.users@.len() && 0 <= j < self.users@.len() && i != j
                ==> self.users@[i].email@ != self.users@[j].email@)
    }

    pub open spec fn accounts_wf(self) -> bool {
        &&& (forall|i: int|
            0 <= i < self.accounts@.len() ==> (#[trigger] self.accounts@[i]).id < self.next_id)
        &&& (forall|i: int, j: int|
            #![trigger self.accounts@[i], self.accounts@[j]]
            0 <= i < self.accounts@.len() && 0 <= j < self.accounts@.len() && i != j
                ==> self.accounts@[i].id != self.accounts@[j].id)
        &&& (forall|i: int, j: int|
            #![trigger self.accounts@[i], self.accounts@[j]]
            0 <= i < self.accounts@.len() && 0 <= j < self.accounts@.len() && i != j ==> !(
            self.accounts@[i].user_id == self.accounts@[j].user_id && self.accounts@[i].provider@
                == self.accounts@[j].provider@))
    }

    pub open spec fn sessions_wf(self) -> bool {
        &&& (forall|i: int|
            0 <= i < self.sessions@.len() ==> (#[trigger] self.sessions@[i]).id < self.next_id)
        &&& (forall|i: int, j: int|
            #![trigger self.sessions@[i], self.sessions@[j]]
            0 <= i < self.sessions@.len() && 0 <= j < self.sessions@.len() && i != j
                ==> self.sessions@[i].id != self.sessions@[j].id)
        &&& (forall|i: int, j: int|
            #![trigger self.sessions@[i], self.sessions@[j]]
            0 <= i < self.sessions@.len() && 0 <= j < self.sessions@.len() && i != j
                ==> self.sessions@[i].token@ != self.sessions@[j].token@)
    }

    /// The storage-layer invariant: lowered unique user emails, unique row
    /// ids below `next_id`, at most one account per (user, provider), and
    /// globally unique session tokens.
    pub open spec fn wf(self) -> bool {
        &&& self.users_wf()
        &&& self.accounts_wf()
        &&& self.sessions_wf()
    }

    /// An empty store.
    pub fn empty() -> (r: Database)
        ensures
            r.wf(),
            r.users@.len() == 0,
            r.accounts@.len() == 0,
            r.sessions@.len() == 0,
            r.next_id == 1,
    {
        Database { users: Vec::new(), accounts: Vec::new(), sessions: Vec::new(), next_id: 1 }
    }

    /// Draws the next row id, or nothing once the id space is exhausted.
    pub(crate) fn fresh_id(&mut self) -> (r: Option<u64>)
        ensures
            final(self).users == old(self).users,
            final(self).accounts == old(self).accounts,
            final(self).sessions == old(self).sessions,
            old(self).next_id == u64::MAX ==> r is None && final(self).next_id == old(
                self,
            ).next_id,
            old(self).next_id < u64::MAX ==> r == Some(old(self).next_id) && final(self).next_id
                == old(self).next_id + 1,
    {
        if self.next_id == u64::MAX {
            None
        } else {
            let id = self.next_id;
            self.next_id = self.next_id + 1;
            Some(id)
        }
    }

    /// Case-exact lookup of a user row by (already lowered) email.
    pub fn find_user_by_email(&self, email: &String) -> (r: Option<usize>)
        ensures
            match r {
                Some(i) => i < self.users@.len() && self.users@[i as int].email@ == email@,
                None => !self.has_user_with_email(email@),
            },
    {
        let mut i: usize = 0;
        while i < self.users.len()
            invariant
                i <= self.users@.len(),
                forall|k: int| 0 <= k < i ==> (#[trigger] self.users@[k]).email@ != email@,
            decreases self.users@.len() - i,
        {
            if self.users[i].email == *email {
                return Some(i);
            }
            i = i + 1;
        }
        None
    }

    /// Lookup of an account row by owning user and provider name.
    pub fn find_account(&self, user_id: u64, provider: &String) -> (r: Option<usize>)
        ensures
            match r {
                Some(i) => i < self.accounts@.len() && self.accounts@[i as int].user_id == user_id
                    && self.accounts@[i as int].provider@ == provider@,
                None => !self.has_account_for(user_id, provider@),
            },
    {
        let mut i: usize = 0;
        while i < self.accounts.len()
            invariant
                i <= self.accounts@.len(),
                forall|k: int|
                    0 <= k < i ==> !((#[trigger] self.accounts@[k]).user_id == user_id
                        && self.accounts@[k].provider@ == provider@),
            decreases self.accounts@.len() - i,
        {
            if self.accounts[i].user_id == user_id && self.accounts[i].provider == *provider {
                return Some(i);
            }
            i = i + 1;
        }
        None
    }

    /// Lookup of a session row by its token.
    pub fn find_session(&self, token: &String) -> (r: Option<usize>)
        ensures
            match r {
                Some(i) => i < self.sessions@.len() && self.sessions@[i as int].token@ == token@,
                None => !self.has_session_with_token(token@),
            },
    {
        let mut i: usize = 0;
        while i < self.sessions.len()
            invariant
                i <= self.sessions@.len(),
                forall|k: int| 0 <= k < i ==> (#[trigger] self.sessions@[k]).token@ != token@,
            decreases self.sessions@.len() - i,
        {
            if self.sessions[i].token == *token {
                return Some(i);
            }
            i = i + 1;
        }
        None
    }

    /// Inserts a session row. Fails with `Conflict` exactly when the token is
    /// already taken, and with `StorageError` exactly when the id space is
    /// exhausted; on success the new row is appended unchanged.
    pub fn insert_session(
        &mut self,
        account_id: u64,
        token: String,
        expire_date: u64,
        device: String,
        email: String,
        now: u64,
    ) -> (r: Result<Session, AuthError>)
        requires
            old(self).wf(),
        ensures
            final(self).wf(),
            final(self).users == old(self).users,
            final(self).accounts == old(self).accounts,
            (r is Ok) == (!old(self).has_session_with_token(token@) && old(self).next_id
                < u64::MAX),
            r is Err ==> *final(self) == *old(self),
            r matches Err(e) ==> (e == AuthError::Conflict || e == AuthError::StorageError) && ((e
                == AuthError::Conflict) <==> old(self).has_session_with_token(token@)),
            r matches Ok(s) ==> {
                &&& s == (Session {
                    id: old(self).next_id,
                    account_id,
                    token,
                    creation_date: now,
                    expire_date,
                    device,
                    email,
                })
                &&& final(self).sessions@ == old(self).sessions@.push(s)
                &&& final(self).next_id == old(self).next_id + 1
            },
    {
        match self.find_session(&token) {
            Some(_) => Err(AuthError::Conflict),
            None => {
                match self.fresh_id() {
                    None => Err(AuthError::StorageError),
                    Some(id) => {
                        let s = Session {
                            id,
                            account_id,
                            token,
                            creation_date: now,
                            expire_date,
                            device,
                            email,
                        };
                        let out = clone_session(&s);
                        self.sessions.push(s);
                        proof {
                            assert forall|i: int, j: int|
                                #![trigger self.sessions@[i], self.sessions@[j]]
                                0 <= i < self.sessions@.len() && 0 <= j < self.sessions@.len() && i
                                    != j implies self.sessions@[i].token@
                                != self.sessions@[j].token@ by {
                                assert(forall|k: int|
                                    0 <= k < old(self).sessions@.len()
                                        ==> (#[trigger] old(self).sessions@[k]).token@ != out.token@);
                            }
                        }
                        Ok(out)
                    },
                }
            },
        }
    }

    /// Deletes every session whose token or email matches; nothing else
    /// changes.
    pub fn delete_sessions_by_token_or_email(&mut self, token: &String, email: &String)
        requires
            old(self).wf(),
        ensures
            final(self).wf(),
            final(self).sessions@ == surviving_sessions(old(self).sessions@, token@, email@),
            final(self).users == old(self).users,
            final(self).accounts == old(self).accounts,
            final(self).next_id == old(self).next_id,
    {
        let kept = filter_sessions(&self.sessions, token, email);
        proof {
            lemma_surviving_sessions(self.sessions@, token@, email@);
            lemma_surviving_sessions_distinct(self.sessions@, token@, email@);
        }
        self.sessions = kept;
    }
}

/// The rows of `v` that survive a logout with the given token and email, in
/// their original order.
fn filter_sessions(v: &Vec<Session>, token: &String, email: &String) -> (r: Vec<Session>)
    ensures
        r@ == surviving_sessions(v@, token@, email@),
{
    let mut r: Vec<Session> = Vec::new();
    let mut i: usize = 0;
    proof {
        assert(v@.subrange(0, 0) =~= Seq::<Session>::empty());
        reveal_with_fuel(Seq::filter, 2);
    }
    while i < v.len()
        invariant
            i <= v@.len(),
            r@ == surviving_sessions(v@.subrange(0, i as int), token@, email@),
        decreases v@.len() - i,
    {
        let s = &v[i];
        let keep = !(s.token == *token || s.email == *email);
        proof {
            let pre = v@.subrange(0, i as int);
            let cur = v@.subrange(0, i as int + 1);
            assert(cur.drop_last() =~= pre);
            assert(cur.last() == v@[i as int]);
            reveal_with_fuel(Seq::filter, 2);
        }
        if keep {
            r.push(clone_session(s));
        }
        i = i + 1;
    }
    proof {
        assert(v@.subrange(0, v@.len() as int) =~= v@);
    }
    r
}

/// With a well-formed store, a stored user is the one `user_with_email`
/// denotes for its email: user rows are unique per email.
pub proof fn lemma_user_with_email_unique(db: Database, u: User)
    requires
        db.wf(),
        db.users@.contains(u),
    ensures
        db.has_user_with_email(u.email@),
        db.user_with_email(u.email@) == u,
{
    let k = choose|k: int| 0 <= k < db.users@.len() && db.users@[k] == u;
    assert(db.users@[k].email@ == u.email@);
    assert(db.has_user_with_email(u.email@));
    let i = choose|i: int|
        0 <= i < db.users@.len() && (#[trigger] db.users@[i]).email@ == u.email@;
    assert(i == k);
}

/// Every surviving session matches neither the token nor the email, and is
/// one of the original rows.
pub proof fn lemma_surviving_sessions(s: Seq<Session>, token: Seq<char>, email: Seq<char>)
    ensures
        forall|k: int|
            0 <= k < surviving_sessions(s, token, email).len() ==> {
                let x = #[trigger] surviving_sessions(s, token, email)[k];
                &&& x.token@ != token
                &&& x.email@ != email
                &&& exists|i: int| 0 <= i < s.len() && s[i] == x
            },
    decreases s.len(),
{
    reveal_with_fuel(Seq::filter, 2);
    if s.len() == 0 {
    } else {
        let pre = s.drop_last();
        lemma_surviving_sessions(pre, token, email);
        assert forall|k: int|
            0 <= k < surviving_sessions(s, token, email).len() implies {
            let x = #[trigger] surviving_sessions(s, token, email)[k];
            &&& x.token@ != token
            &&& x.email@ != email
            &&& exists|i: int| 0 <= i < s.len() && s[i] == x
        } by {
            let x = surviving_sessions(s, token, email)[k];
            if k < surviving_sessions(pre, token, email).len() {
                assert(x == surviving_sessions(pre, token, email)[k]);
                let i = choose|i: int| 0 <= i < pre.len() && pre[i] == x;
                assert(s[i] == x);
            } else {
                assert(x == s.last());
                assert(s[s.len() - 1] == x);
            }
        }
    }
}

/// Filtering the session table preserves the distinctness of row ids and of
/// tokens.
pub proof fn lemma_surviving_sessions_distinct(s: Seq<Session>, token: Seq<char>, email: Seq<char>)
    requires
        forall|i: int, j: int|
            #![trigger s[i], s[j]]
            0 <= i < s.len() && 0 <= j < s.len() && i != j ==> s[i].id != s[j].id,
        forall|i: int, j: int|
            #![trigger s[i], s[j]]
            0 <= i < s.len() && 0 <= j < s.len() && i != j ==> s[i].token@ != s[j].token@,
    ensures
        forall|i: int, j: int|
            #![trigger surviving_sessions(s, token, email)[i], surviving_sessions(s, token, email)[j]]
            0 <= i < surviving_sessions(s, token, email).len() && 0 <= j < surviving_sessions(
                s,
                token,
                email,
            ).len() && i != j ==> surviving_sessions(s, token, email)[i].id != surviving_sessions(
                s,
                token,
                email,
            )[j].id,
        forall|i: int, j: int|
            #![trigger surviving_sessions(s, token, email)[i], surviving_sessions(s, token, email)[j]]
            0 <= i < surviving_sessions(s, token, email).len() && 0 <= j < surviving_sessions(
                s,
                token,
                email,
            ).len() && i != j ==> surviving_sessions(s, token, email)[i].token@
                != surviving_sessions(s, token, email)[j].token@,
    decreases s.len(),
{
    reveal_with_fuel(Seq::filter, 2);
    if s.len() == 0 {
    } else {
        let pre = s.drop_last();
        lemma_surviving_sessions_distinct(pre, token, email);
        lemma_surviving_sessions(pre, token, email);
        let out = surviving_sessions(s, token, email);
        let sub = surviving_sessions(pre, token, email);
        assert forall|i: int, j: int|
            #![trigger out[i], out[j]]
            0 <= i < out.len() && 0 <= j < out.len() && i != j implies out[i].id != out[j].id
            && out[i].token@ != out[j].token@ by {
            if i < sub.len() && j < sub.len() {
            } else if i < sub.len() && j == sub.len() {
                assert(out[j] == s.last());
                let w = choose|w: int| 0 <= w < pre.len() && pre[w] == sub[i];
                assert(s[w] == sub[i]);
                assert(s[s.len() - 1] == s.last());
            } else if j < sub.len() && i == sub.len() {
                assert(out[i] == s.last());
                let w = choose|w: int| 0 <= w < pre.len() && pre[w] == sub[j];
                assert(s[w] == sub[j]);
                assert(s[s.len() - 1] == s.last());
            }
        }
    }
}

} // verus!
