use vstd::prelude::*;

use crate::util::app_state::AppState;
use crate::util::cookies::{build_cookie_pair, cookie_pair_ok, CookiePair};
use crate::util::database::Database;
use crate::util::errors::AuthError;
use crate::util::text::lower_seq;

verus! {

/// One live login: an opaque bearer token, the owning account, a snapshot of
/// the owning user's email, and the expiry instant (seconds since the Unix
/// epoch). A session is valid only until its expiry.
#[derive(Debug, Clone)]
pub struct Session {
    pub id: u64,
    pub account_id: u64,
    pub token: String,
    pub creation_date: u64,
    pub expire_date: u64,
    pub device: String,
    pub email: String,
}

/// An exact copy of a session record.
pub fn clone_session(s: &Session) -> (r: Session)
    ensures
        r == *s,
{
    Session {
        id: s.id,
        account_id: s.account_id,
        token: s.token.clone(),
        creation_date: s.creation_date,
        expire_date: s.expire_date,
        device: s.device.clone(),
        email: s.email.clone(),
    }
}

/// Relies on uuid::Uuid::new_v4 and its hyphenated lowercase string form: a
/// 36-character rendering of a cryptographically random value. The token is
/// random, so nothing more is promised of it; in particular, freshness is
/// checked against the store, never assumed.
#[verifier::external_body]
fn fresh_token() -> (r: String)
    ensures
        r@.len() == 36,
{
    uuid::Uuid::new_v4().to_string()
}

/// What issuing one session means: a session row with a token that was not
/// in the store before is appended, snapshotting the given email, device and
/// expiry, and the cookie pair carries exactly that token and email with a
/// max-age equal to the session's remaining lifetime.
pub open spec fn session_issued(
    pre: Database,
    post: Database,
    account_id: u64,
    device: Seq<char>,
    email: Seq<char>,
    expire_date: u64,
    now: u64,
    s: Session,
    cp: CookiePair,
    cookie_domain: Seq<char>,
) -> bool {
    &&& !pre.has_session_with_token(s.token@)
    &&& s.id == pre.next_id
    &&& s.account_id == account_id
    &&& s.device@ == device
    &&& s.email@ == email
    &&& s.creation_date == now
    &&& s.expire_date == expire_date
    &&& post.sessions@ == pre.sessions@.push(s)
    &&& post.users == pre.users
    &&& post.accounts == pre.accounts
    &&& post.next_id == pre.next_id + 1
    &&& cookie_pair_ok(cp, s.token@, email, cookie_domain, (expire_date - now) as i64)
}

impl Session {
    /// Issues a session: generates a fresh token, persists the row, and only
    /// then builds the cookie pair, so no cookie ever references an
    /// unwritten session. Fails with `Conflict` exactly when the drawn token
    /// collides with a stored one, and with `StorageError` exactly when the
    /// id space is exhausted.
    pub fn create_and_get(
        state: &mut AppState,
        account_id: u64,
        device: String,
        email: &str,
        expire_date: u64,
        now: u64,
    ) -> (r: Result<(Session, CookiePair), AuthError>)
        requires
            old(state).db.wf(),
            now <= expire_date,
            expire_date - now <= i64::MAX,
        ensures
            final(state).db.wf(),
            final(state).domain == old(state).domain,
            final(state).cookie_domain == old(state).cookie_domain,
            r is Err ==> *final(state) == *old(state),
            r matches Err(e) ==> (e == AuthError::Conflict || e == AuthError::StorageError) && (old(
                state,
            ).db.next_id < u64::MAX ==> e == AuthError::Conflict),
            r matches Ok((s, cp)) ==> session_issued(
                old(state).db,
                final(state).db,
                account_id,
                device@,
                email@,
                expire_date,
                now,
                s,
                cp,
                old(state).cookie_domain@,
            ),
    {
        let token = fresh_token();
        let token_for_cookie = token.clone();
        let row_email = String::from_str(email);
        let cookie_email = String::from_str(email);
        match state.db.insert_session(account_id, token, expire_date, device, row_email, now) {
            Err(e) => Err(e),
            Ok(s) => {
                let max_age: i64 = (expire_date - now) as i64;
                let cp = build_cookie_pair(
                    token_for_cookie,
                    cookie_email,
                    state.cookie_domain.as_str(),
                    max_age,
                );
                Ok((s, cp))
            },
        }
    }

    /// Issues a session as `create_and_get` does, returning the cookie pair
    /// alone.
    pub fn create(
        state: &mut AppState,
        account_id: u64,
        device: String,
        email: &str,
        expire_date: u64,
        now: u64,
    ) -> (r: Result<CookiePair, AuthError>)
        requires
            old(state).db.wf(),
            now <= expire_date,
            expire_date - now <= i64::MAX,
        ensures
            final(state).db.wf(),
            final(state).domain == old(state).domain,
            final(state).cookie_domain == old(state).cookie_domain,
            r is Err ==> *final(state) == *old(state),
            r matches Err(e) ==> (e == AuthError::Conflict || e == AuthError::StorageError) && (old(
                state,
            ).db.next_id < u64::MAX ==> e == AuthError::Conflict),
            r matches Ok(cp) ==> final(state).db.sessions@.len() > 0 && session_issued(
                old(state).db,
                final(state).db,
                account_id,
                device@,
                email@,
                expire_date,
                now,
                final(state).db.sessions@.last(),
                cp,
                old(state).cookie_domain@,
            ),
    {
        match Self::create_and_get(state, account_id, device, email, expire_date, now) {
            Err(e) => Err(e),
            Ok((s, cp)) => {
                proof {
                    assert(session_issued(
                        old(state).db,
                        state.db,
                        account_id,
                        device@,
                        email@,
                        expire_date,
                        now,
                        s,
                        cp,
                        old(state).cookie_domain@,
                    ));
                    assert(state.db.sessions@.last() == s);
                }
                Ok(cp)
            },
        }
    }
}

/// The round-trip law of issuance and validation: a cookie pair tied to one
/// stored session passes server-side validation exactly while `now` has not
/// passed the session's expiry — valid immediately when issued with a
/// positive lifetime, invalid at any instant after expiry.
pub proof fn lemma_session_validity_window(db: Database, j: int, cookie_email: Seq<char>, now: u64)
    requires
        db.wf(),
        0 <= j < db.sessions@.len(),
        db.has_user_with_email(db.sessions@[j].email@),
        lower_seq(cookie_email) == db.sessions@[j].email@,
    ensures
        db.valid_cookie_pair(db.sessions@[j].token@, cookie_email, now) <==> now
            <= db.sessions@[j].expire_date,
{
    let s = db.sessions@[j];
    if db.has_valid_session(s.token@, lower_seq(cookie_email), now) {
        let k = choose|k: int|
            0 <= k < db.sessions@.len() && (#[trigger] db.sessions@[k]).token@ == s.token@
                && db.sessions@[k].email@ == lower_seq(cookie_email) && now
                <= db.sessions@[k].expire_date;
        assert(k == j);
    }
    if now <= s.expire_date {
        assert(0 <= j < db.sessions@.len() && db.sessions@[j].token@ == s.token@
            && db.sessions@[j].email@ == lower_seq(cookie_email) && now
            <= db.sessions@[j].expire_date);
    }
}

} // verus!
