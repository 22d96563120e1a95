use vstd::prelude::*;

use crate::util::app_state::AppState;
use crate::util::errors::AuthError;
use crate::util::text::{digit_char, lower_seq, trim_spec, uppercase_char};

verus! {

/// A person known to the application. Timestamps count seconds since the
/// Unix epoch; the email is kept in lowered (case-normalized) form.
#[derive(Debug, Clone)]
pub struct User {
    pub id: u64,
    pub first_name: String,
    pub last_name: String,
    pub email: String,
    pub email_verified: Option<u64>,
    pub creation_date: u64,
}

/// An exact copy of a user record.
pub fn clone_user(u: &User) -> (r: User)
    ensures
        r == *u,
{
    User {
        id: u.id,
        first_name: u.first_name.clone(),
        last_name: u.last_name.clone(),
        email: u.email.clone(),
        email_verified: match u.email_verified {
            Some(t) => Some(t),
            None => None,
        },
        creation_date: u.creation_date,
    }
}

/// An acceptable password: after trimming surrounding whitespace it is at
/// least eight bytes long and holds a decimal digit and an uppercase letter.
pub open spec fn password_ok(s: Seq<char>) -> bool {
    let t = trim_spec(s);
    &&& (vstd::utf8::encode_utf8(t).len() as usize) >= 8
    &&& (exists|i: int| 0 <= i < t.len() && digit_char(#[trigger] t[i]))
    &&& (exists|i: int| 0 <= i < t.len() && uppercase_char(#[trigger] t[i]))
}

pub fn validate_password(password: &str) -> (r: bool)
    ensures
        r == password_ok(password@),
{
    let t = crate::util::text::trim(password);
    if t.len() < 8 {
        return false;
    }
    let n = t.unicode_len();
    let mut has_digit = false;
    let mut has_upper = false;
    let mut i: usize = 0;
    while i < n
        invariant
            n == t@.len(),
            i <= n,
            has_digit == (exists|k: int| 0 <= k < i && digit_char(#[trigger] t@[k])),
            has_upper == (exists|k: int| 0 <= k < i && uppercase_char(#[trigger] t@[k])),
        decreases n - i,
    {
        let c = t.get_char(i);
        if crate::util::text::is_digit(c) {
            has_digit = true;
        }
        if crate::util::text::is_uppercase(c) {
            has_upper = true;
        }
        i = i + 1;
    }
    has_digit && has_upper
}

impl User {
    /// Creates a user storing the lowered form of the given email. Fails
    /// with `Conflict` exactly when a user with that email already exists,
    /// and with `StorageError` exactly when the id space is exhausted.
    pub fn create(
        state: &mut AppState,
        first_name: String,
        last_name: String,
        email: &str,
        now: u64,
    ) -> (r: Result<User, AuthError>)
        requires
            old(state).db.wf(),
        ensures
            final(state).db.wf(),
            final(state).db.accounts == old(state).db.accounts,
            final(state).db.sessions == old(state).db.sessions,
            final(state).domain == old(state).domain,
            final(state).cookie_domain == old(state).cookie_domain,
            (r is Ok) == (!old(state).db.has_user_with_email(lower_seq(email@)) && old(
                state,
            ).db.next_id < u64::MAX),
            r is Err ==> *final(state) == *old(state),
            r matches Err(e) ==> (e == AuthError::Conflict || e == AuthError::StorageError) && ((e
                == AuthError::Conflict) <==> old(state).db.has_user_with_email(lower_seq(email@))),
            r matches Ok(u) ==> {
                &&& u.email@ == lower_seq(email@)
                &&& u.first_name == first_name
                &&& u.last_name == last_name
                &&& u.email_verified is None
                &&& u.creation_date == now
                &&& u.id == old(state).db.next_id
                &&& final(state).db.users@ == old(state).db.users@.push(u)
                &&& final(state).db.next_id == old(state).db.next_id + 1
            },
    {
        let email_l = crate::util::text::lower_ascii(email);
        match state.db.find_user_by_email(&email_l) {
            Some(_) => Err(AuthError::Conflict),
            None => {
                match state.db.fresh_id() {
                    None => Err(AuthError::StorageError),
                    Some(id) => {
                        let u = User {
                            id,
                            first_name,
                            last_name,
                            email: email_l,
                            email_verified: None,
                            creation_date: now,
                        };
                        let out = clone_user(&u);
                        state.db.users.push(u);
                        proof {
                            crate::util::text::lemma_lower_seq_idempotent(email@);
                            assert forall|i: int, j: int|
                                #![trigger state.db.users@[i], state.db.users@[j]]
                                0 <= i < state.db.users@.len() && 0 <= j < state.db.users@.len()
                                    && i != j implies state.db.users@[i].email@
                                != state.db.users@[j].email@ by {
                                assert(forall|k: int|
                                    0 <= k < old(state).db.users@.len()
                                        ==> (#[trigger] old(state).db.users@[k]).email@
                                        != out.email@);
                            }
                        }
                        Ok(out)
                    },
                }
            },
        }
    }

    /// Case-insensitive user lookup: the given email is lowered first.
    /// Fails with `NotFound` exactly when no user carries that email.
    pub fn get_by_email(state: &AppState, email: &str) -> (r: Result<User, AuthError>)
        ensures
            (r is Ok) == state.db.has_user_with_email(lower_seq(email@)),
            r matches Ok(u) ==> state.db.users@.contains(u) && u.email@ == lower_seq(email@),
            r matches Err(e) ==> e == AuthError::NotFound,
    {
        let email_l = crate::util::text::lower_ascii(email);
        match state.db.find_user_by_email(&email_l) {
            Some(i) => {
                let u = clone_user(&state.db.users[i]);
                proof {
                    assert(state.db.users@[i as int] == u);
                }
                Ok(u)
            },
            None => Err(AuthError::NotFound),
        }
    }

    /// Whether this user currently holds a live session under the given
    /// token: the session must exist, snapshot this user's email, and not
    /// have expired at `now`.
    pub fn is_logged_in(&self, state: &AppState, token: String, now: u64) -> (r: bool)
        requires
            state.db.wf(),
        ensures
            r == state.db.has_valid_session(token@, self.email@, now),
    {
        match state.db.find_session(&token) {
            None => false,
            Some(i) => {
                let s = &state.db.sessions[i];
                if s.email == self.email && now <= s.expire_date {
                    true
                } else {
                    proof {
                        assert forall|j: int|
                            0 <= j < state.db.sessions@.len()
                                && (#[trigger] state.db.sessions@[j]).token@ == token@ implies j
                            == i by {}
                    }
                    false
                }
            },
        }
    }
}

} // verus!
