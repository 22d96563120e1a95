use vstd::prelude::*;

use crate::util::account::Account;
use crate::util::app_state::AppState;
use crate::util::cookies::{cookie_pair_ok, CookiePair};
use crate::util::database::{lemma_user_with_email_unique, Database};
use crate::util::errors::AuthError;
use crate::util::session::Session;
use crate::util::text::{lemma_lower_seq_idempotent, lower_seq};
use crate::util::user::User;

verus! {

/// The default session lifetime handed to the issuer: thirty days. A policy
/// constant, not a protocol requirement.
pub const SESSION_LIFETIME_SECONDS: u64 = 30 * 24 * 60 * 60;

/// The query parameters the provider's redirect carries back: the
/// authorization code to exchange and the anti-forgery state nonce.
#[derive(Debug, Clone)]
pub struct AuthRequest {
    pub code: String,
    pub state: String,
}

/// The profile the provider reports for the person who logged in: the email,
/// the optional given and family names, and the provider's stable subject id.
#[derive(Debug, Clone)]
pub struct GoogleUserInfo {
    pub email: String,
    pub given_name: Option<String>,
    pub family_name: Option<String>,
    pub sub: Option<String>,
}

/// How the callback resolves the user table: untouched when a user already
/// carries the profile's (lowered) email, else extended by exactly one user
/// carrying it, with placeholder names where the provider omitted them.
pub open spec fn users_resolved(pre: Database, post: Database, info: GoogleUserInfo) -> bool {
    let le = lower_seq(info.email@);
    if pre.has_user_with_email(le) {
        post.users == pre.users
    } else {
        &&& post.users@.len() == pre.users@.len() + 1
        &&& post.users@.drop_last() == pre.users@
        &&& post.users@.last().email@ == le
        &&& post.users@.last().first_name@ == (if info.given_name is Some {
            info.given_name->0@
        } else {
            "Unknown"@
        })
        &&& post.users@.last().last_name@ == (if info.family_name is Some {
            info.family_name->0@
        } else {
            Seq::<char>::empty()
        })
    }
}

/// How the callback resolves the account table for the resolved user:
/// untouched when the (user, google) account exists, else extended by exactly
/// one google account storing the provider's subject id.
pub open spec fn accounts_resolved(
    pre: Database,
    post: Database,
    info: GoogleUserInfo,
    user_id: u64,
) -> bool {
    if pre.has_account_for(user_id, "google"@) {
        post.accounts == pre.accounts
    } else {
        &&& post.accounts@.len() == pre.accounts@.len() + 1
        &&& post.accounts@.drop_last() == pre.accounts@
        &&& post.accounts@.last().user_id == user_id
        &&& post.accounts@.last().provider@ == "google"@
        &&& post.accounts@.last().google_id == info.sub
        &&& post.accounts@.last().password is None
    }
}

/// What a successful callback means: identity resolved without duplicates,
/// exactly one session appended — fresh token, thirty-day expiry, the
/// resolved email as snapshot — and a cookie pair that validates right away.
pub open spec fn callback_ok(
    pre: Database,
    post: Database,
    info: GoogleUserInfo,
    now: u64,
    s: Session,
    cp: CookiePair,
    cookie_domain: Seq<char>,
) -> bool {
    let le = lower_seq(info.email@);
    &&& users_resolved(pre, post, info)
    &&& post.has_user_with_email(le)
    &&& accounts_resolved(pre, post, info, post.user_with_email(le).id)
    &&& post.has_account_for(post.user_with_email(le).id, "google"@)
    &&& post.sessions@ == pre.sessions@.push(s)
    &&& !pre.has_session_with_token(s.token@)
    &&& s.account_id == account_row_for(post.accounts@, post.user_with_email(le).id)
    &&& s.email@ == le
    &&& s.device@ == "Google OAuth"@
    &&& s.creation_date == now
    &&& s.expire_date == now + SESSION_LIFETIME_SECONDS
    &&& cookie_pair_ok(cp, s.token@, le, cookie_domain, SESSION_LIFETIME_SECONDS as i64)
    &&& post.valid_cookie_pair(s.token@, s.email@, now)
}

/// The id of the google account among `accounts` owned by `user_id`;
/// meaningful when one exists, and unique by well-formedness.
pub open spec fn account_row_for(accounts: Seq<Account>, user_id: u64) -> u64 {
    accounts[choose|i: int|
        0 <= i < accounts.len() && (#[trigger] accounts[i]).user_id == user_id
            && accounts[i].provider@ == "google"@].id
}

/// The identity-resolution phase of the OAuth callback, entered once the
/// provider has reported a profile. Finds or creates the user by the
/// profile's email and the google account for that user, then issues a
/// thirty-day session under the resolved (lowered) email. The two lookups
/// come before the two creations, so a rerun for the same profile never
/// duplicates a user or an account. `Conflict` can only mean that the drawn
/// session token collided; `StorageError` only that the id space ran out.
pub fn google_callback(state: &mut AppState, info: GoogleUserInfo, now: u64) -> (r: Result<
    (Session, CookiePair),
    AuthError,
>)
    requires
        old(state).db.wf(),
        now + SESSION_LIFETIME_SECONDS <= u64::MAX,
    ensures
        final(state).db.wf(),
        final(state).domain == old(state).domain,
        final(state).cookie_domain == old(state).cookie_domain,
        r matches Ok((s, cp)) ==> callback_ok(
            old(state).db,
            final(state).db,
            info,
            now,
            s,
            cp,
            old(state).cookie_domain@,
        ),
        r matches Err(e) ==> e == AuthError::Conflict || e == AuthError::StorageError,
        r is Err ==> final(state).db.sessions@ == old(state).db.sessions@,
        r matches Err(e) ==> (e == AuthError::Conflict ==> users_resolved(
            old(state).db,
            final(state).db,
            info,
        ) && final(state).db.has_user_with_email(lower_seq(info.email@))),
        r matches Err(e) ==> (old(state).db.next_id + 3 <= u64::MAX ==> e == AuthError::Conflict),
{
    let ghost le = lower_seq(info.email@);
    let user = match User::get_by_email(state, info.email.as_str()) {
        Ok(u) => u,
        Err(_) => {
            let first = match &info.given_name {
                Some(g) => g.clone(),
                None => String::from_str("Unknown"),
            };
            let last = match &info.family_name {
                Some(f) => f.clone(),
                None => String::new(),
            };
            match User::create(state, first, last, info.email.as_str(), now) {
                Ok(u) => u,
                Err(e) => {
                    return Err(e);
                },
            }
        },
    };
    proof {
        if !old(state).db.has_user_with_email(le) {
            assert(state.db.users@[state.db.users@.len() - 1] == user);
        }
        assert(state.db.users@.contains(user));
        lemma_user_with_email_unique(state.db, user);
    }
    let account = match Account::get_by_user_id_and_provider(
        state,
        user.id,
        String::from_str("google"),
    ) {
        Ok(a) => a,
        Err(_) => {
            let sub = match &info.sub {
                Some(s0) => Some(s0.clone()),
                None => None,
            };
            match Account::create_for_provider(
                state,
                user.id,
                String::from_str("google"),
                sub,
                None,
                now,
            ) {
                Ok(a) => a,
                Err(e) => {
                    return Err(e);
                },
            }
        },
    };
    proof {
        if state.db.accounts@.len() > 0 && state.db.accounts@.last() == account {
            assert(state.db.accounts@[state.db.accounts@.len() - 1] == account);
        }
        assert(state.db.accounts@.contains(account));
        lemma_account_for_user_unique(state.db, account);
        if !old(state).db.has_user_with_email(le) {
            assert(state.db.users@.drop_last() =~= old(state).db.users@);
        }
        assert(users_resolved(old(state).db, state.db, info));
        if !old(state).db.has_account_for(user.id, "google"@) {
            assert(state.db.accounts@.drop_last() =~= old(state).db.accounts@);
        }
        assert(accounts_resolved(old(state).db, state.db, info, user.id));
        assert(state.db.user_with_email(le) == user);
        assert(account_row_for(state.db.accounts@, user.id) == account.id);
    }
    let expire_date = now + SESSION_LIFETIME_SECONDS;
    match Session::create_and_get(
        state,
        account.id,
        String::from_str("Google OAuth"),
        user.email.as_str(),
        expire_date,
        now,
    ) {
        Err(e) => {
            proof {
                assert(users_resolved(old(state).db, state.db, info));
            }
            Err(e)
        },
        Ok((s, cp)) => {
            proof {
                lemma_lower_seq_idempotent(info.email@);
                assert(state.db.sessions@.last() == s);
                assert(state.db.sessions@[state.db.sessions@.len() - 1] == s);
                assert(users_resolved(old(state).db, state.db, info));
                assert(state.db.user_with_email(le) == user);
                assert(accounts_resolved(old(state).db, state.db, info, user.id));
                assert(account_row_for(state.db.accounts@, user.id) == account.id);
                assert(s.account_id == account.id);
                assert((expire_date - now) as i64 == SESSION_LIFETIME_SECONDS as i64);
                assert(state.db.has_valid_session(s.token@, le, now));
                assert(state.db.valid_cookie_pair(s.token@, s.email@, now));
            }
            Ok((s, cp))
        },
    }
}

/// With a well-formed store, a stored google account is the one
/// `account_row_for` denotes for its user: accounts are unique per
/// (user, provider) pair.
proof fn lemma_account_for_user_unique(db: Database, a: Account)
    requires
        db.wf(),
        db.accounts@.contains(a),
        a.provider@ == "google"@,
    ensures
        db.has_account_for(a.user_id, "google"@),
        account_row_for(db.accounts@, a.user_id) == a.id,
{
    let k = choose|k: int| 0 <= k < db.accounts@.len() && db.accounts@[k] == a;
    assert(db.has_account_for(a.user_id, "google"@));
    let i = choose|i: int|
        0 <= i < db.accounts@.len() && (#[trigger] db.accounts@[i]).user_id == a.user_id
            && db.accounts@[i].provider@ == "google"@;
    assert(i == k);
}

/// Callback idempotence: two callbacks for the same provider-reported
/// profile leave exactly one user row and exactly one google account row for
/// that email, and two distinct session rows, each valid at its own login
/// instant.
pub proof fn lemma_callback_idempotent(
    db0: Database,
    db1: Database,
    db2: Database,
    info: GoogleUserInfo,
    now1: u64,
    now2: u64,
    s1: Session,
    cp1: CookiePair,
    s2: Session,
    cp2: CookiePair,
    dom: Seq<char>,
)
    requires
        db0.wf(),
        db1.wf(),
        db2.wf(),
        callback_ok(db0, db1, info, now1, s1, cp1, dom),
        callback_ok(db1, db2, info, now2, s2, cp2, dom),
    ensures
        db2.has_user_with_email(lower_seq(info.email@)),
        forall|i: int, j: int|
            #![trigger db2.users@[i], db2.users@[j]]
            0 <= i < db2.users@.len() && 0 <= j < db2.users@.len() && db2.users@[i].email@
                == lower_seq(info.email@) && db2.users@[j].email@ == lower_seq(info.email@) ==> i
                == j,
        db2.has_account_for(db2.user_with_email(lower_seq(info.email@)).id, "google"@),
        forall|i: int, j: int|
            #![trigger db2.accounts@[i], db2.accounts@[j]]
            0 <= i < db2.accounts@.len() && 0 <= j < db2.accounts@.len()
                && db2.accounts@[i].user_id == db2.accounts@[j].user_id
                && db2.accounts@[i].provider@ == db2.accounts@[j].provider@ ==> i == j,
        db2.sessions@ == db0.sessions@.push(s1).push(s2),
        s1.token@ != s2.token@,
        db1.valid_cookie_pair(s1.token@, s1.email@, now1),
        db2.valid_cookie_pair(s2.token@, s2.email@, now2),
{
    assert(db1.sessions@.len() > 0 && db1.sessions@.last() == s1);
    assert(db1.has_session_with_token(s1.token@));
    assert(db2.sessions@ == db0.sessions@.push(s1).push(s2));
}

} // verus!
