use vstd::prelude::*;

use crate::util::app_state::AppState;
use crate::util::errors::AuthError;

verus! {

/// One login method bound to a user: a provider name together with either
/// the provider's subject id (for OAuth-style providers) or a password hash
/// (for the password provider). At most one account exists per
/// (user id, provider) pair.
#[derive(Debug, Clone)]
pub struct Account {
    pub id: u64,
    pub user_id: u64,
    pub provider: String,
    pub google_id: Option<String>,
    pub password: Option<String>,
    pub creation_date: u64,
}

/// An exact copy of an account record.
pub fn clone_account(a: &Account) -> (r: Account)
    ensures
        r == *a,
{
    Account {
        id: a.id,
        user_id: a.user_id,
        provider: a.provider.clone(),
        google_id: match &a.google_id {
            Some(g) => Some(g.clone()),
            None => None,
        },
        password: match &a.password {
            Some(p) => Some(p.clone()),
            None => None,
        },
        creation_date: a.creation_date,
    }
}

/// The accounts owned by one user, in row order.
pub open spec fn accounts_of(s: Seq<Account>, user_id: u64) -> Seq<Account> {
    s.filter(|a: Account| a.user_id == user_id)
}

/// Relies on argon2::Argon2::hash_password (argon2 under its default
/// parameters, salted from the system's secure random source): on success the
/// result is the PHC string form of the hash. The salt is drawn at random, so
/// nothing is promised of the result's value.
#[verifier::external_body]
fn hash_password_argon2(password: &str) -> (r: Option<String>) {
    let hasher = argon2::Argon2::default();
    match argon2::PasswordHasher::hash_password(&hasher, password.as_bytes()) {
        Ok(h) => Some(h.to_string()),
        Err(_) => None,
    }
}

impl Account {
    /// All accounts owned by the given user, in row order.
    pub fn get_by_user_id(state: &AppState, user_id: u64) -> (r: Vec<Account>)
        ensures
            r@ == accounts_of(state.db.accounts@, user_id),
    {
        let v = &state.db.accounts;
        let mut r: Vec<Account> = Vec::new();
        let mut i: usize = 0;
        proof {
            assert(v@.subrange(0, 0) =~= Seq::<Account>::empty());
            reveal_with_fuel(Seq::filter, 2);
        }
        while i < v.len()
            invariant
                i <= v@.len(),
                r@ == accounts_of(v@.subrange(0, i as int), user_id),
            decreases v@.len() - i,
        {
            let a = &v[i];
            proof {
                let pre = v@.subrange(0, i as int);
                let cur = v@.subrange(0, i as int + 1);
                assert(cur.drop_last() =~= pre);
                assert(cur.last() == v@[i as int]);
                reveal_with_fuel(Seq::filter, 2);
            }
            if a.user_id == user_id {
                r.push(clone_account(a));
            }
            i = i + 1;
        }
        proof {
            assert(v@.subrange(0, v@.len() as int) =~= v@);
        }
        r
    }

    /// Creates the account binding `user_id` to `provider`. Fails with
    /// `Conflict` exactly when that pair already has an account, and with
    /// `StorageError` exactly when the id space is exhausted.
    pub fn create_for_provider(
        state: &mut AppState,
        user_id: u64,
        provider: String,
        google_id: Option<String>,
        password: Option<String>,
        now: u64,
    ) -> (r: Result<Account, AuthError>)
        requires
            old(state).db.wf(),
        ensures
            final(state).db.wf(),
            final(state).db.users == old(state).db.users,
            final(state).db.sessions == old(state).db.sessions,
            final(state).domain == old(state).domain,
            final(state).cookie_domain == old(state).cookie_domain,
            (r is Ok) == (!old(state).db.has_account_for(user_id, provider@) && old(
                state,
            ).db.next_id < u64::MAX),
            r is Err ==> *final(state) == *old(state),
            r matches Err(e) ==> (e == AuthError::Conflict || e == AuthError::StorageError) && ((e
                == AuthError::Conflict) <==> old(state).db.has_account_for(user_id, provider@)),
            r matches Ok(a) ==> {
                &&& a == (Account {
                    id: old(state).db.next_id,
                    user_id,
                    provider,
                    google_id,
                    password,
                    creation_date: now,
                })
                &&& final(state).db.accounts@ == old(state).db.accounts@.push(a)
                &&& final(state).db.next_id == old(state).db.next_id + 1
                &&& final(state).db.has_account_for(user_id, provider@)
            },
    {
        match state.db.find_account(user_id, &provider) {
            Some(_) => Err(AuthError::Conflict),
            None => {
                match state.db.fresh_id() {
                    None => Err(AuthError::StorageError),
                    Some(id) => {
                        let a = Account {
                            id,
                            user_id,
                            provider,
                            google_id,
                            password,
                            creation_date: now,
                        };
                        let out = clone_account(&a);
                        state.db.accounts.push(a);
                        proof {
                            assert(state.db.accounts@[state.db.accounts@.len() - 1] == out);
                            assert forall|i: int, j: int|
                                #![trigger state.db.accounts@[i], state.db.accounts@[j]]
                                0 <= i < state.db.accounts@.len() && 0 <= j
                                    < state.db.accounts@.len() && i != j implies !(
                            state.db.accounts@[i].user_id == state.db.accounts@[j].user_id
                                && state.db.accounts@[i].provider@
                                == state.db.accounts@[j].provider@) by {
                                assert(forall|k: int|
                                    0 <= k < old(state).db.accounts@.len() ==> !((
                                    #[trigger] old(state).db.accounts@[k]).user_id == out.user_id
                                        && old(state).db.accounts@[k].provider@ == out.provider@));
                            }
                        }
                        Ok(out)
                    },
                }
            },
        }
    }

    /// Lookup of the account binding `user_id` to `provider`. Fails with
    /// `NotFound` exactly when that pair has no account.
    pub fn get_by_user_id_and_provider(
        state: &AppState,
        user_id: u64,
        provider: String,
    ) -> (r: Result<Account, AuthError>)
        ensures
            (r is Ok) == state.db.has_account_for(user_id, provider@),
            r matches Ok(a) ==> state.db.accounts@.contains(a) && a.user_id == user_id
                && a.provider@ == provider@,
            r matches Err(e) ==> e == AuthError::NotFound,
    {
        match state.db.find_account(user_id, &provider) {
            Some(i) => {
                let a = clone_account(&state.db.accounts[i]);
                proof {
                    assert(state.db.accounts@[i as int] == a);
                }
                Ok(a)
            },
            None => Err(AuthError::NotFound),
        }
    }

    /// Creates the password-provider account for a user, storing an argon2
    /// hash of the given password. Fails with `Conflict` exactly when the
    /// user already has a password account; hashing or id-space failures
    /// surface as `StorageError`.
    pub fn create_email(state: &mut AppState, user_id: u64, password: String, now: u64) -> (r:
        Result<Account, AuthError>)
        requires
            old(state).db.wf(),
        ensures
            final(state).db.wf(),
            final(state).db.users == old(state).db.users,
            final(state).db.sessions == old(state).db.sessions,
            final(state).domain == old(state).domain,
            final(state).cookie_domain == old(state).cookie_domain,
            r is Err ==> *final(state) == *old(state),
            r matches Err(e) ==> (e == AuthError::Conflict || e == AuthError::StorageError) && ((e
                == AuthError::Conflict) <==> old(state).db.has_account_for(user_id, "email"@)),
            r matches Ok(a) ==> {
                &&& !old(state).db.has_account_for(user_id, "email"@)
                &&& a.id == old(state).db.next_id
                &&& a.user_id == user_id
                &&& a.provider@ == "email"@
                &&& a.google_id is None
                &&& a.password is Some
                &&& a.creation_date == now
                &&& final(state).db.accounts@ == old(state).db.accounts@.push(a)
                &&& final(state).db.next_id == old(state).db.next_id + 1
            },
    {
        let provider = String::from_str("email");
        match state.db.find_account(user_id, &provider) {
            Some(_) => Err(AuthError::Conflict),
            None => {
                match hash_password_argon2(password.as_str()) {
                    None => Err(AuthError::StorageError),
                    Some(hash) => Self::create_for_provider(
                        state,
                        user_id,
                        provider,
                        None,
                        Some(hash),
                        now,
                    ),
                }
            },
        }
    }
}

} // verus!
