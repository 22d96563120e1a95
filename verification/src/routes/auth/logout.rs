use vstd::prelude::*;

use crate::util::app_state::AppState;
use crate::util::cookies::{build_cookie_pair, cookie_pair_ok, CookiePair};
use crate::util::database::{lemma_surviving_sessions, surviving_sessions, Database};
use crate::util::text::lower_seq;

verus! {

/// The logout endpoint. Both cookies must be presented (a request without
/// them is a client error handled before this point). It deletes every
/// session whose token equals the token cookie or whose email snapshot
/// equals the email cookie — logout invalidates all of that email's logins,
/// not only this device's — and answers 200 with both cookies expired.
pub fn logout(state: &mut AppState, token: String, email: String) -> (r: (CookiePair, u16))
    requires
        old(state).db.wf(),
    ensures
        final(state).db.wf(),
        final(state).db.sessions@ == surviving_sessions(
            old(state).db.sessions@,
            token@,
            email@,
        ),
        final(state).db.users == old(state).db.users,
        final(state).db.accounts == old(state).db.accounts,
        final(state).db.next_id == old(state).db.next_id,
        final(state).domain == old(state).domain,
        final(state).cookie_domain == old(state).cookie_domain,
        r.1 == 200,
        cookie_pair_ok(
            r.0,
            Seq::<char>::empty(),
            Seq::<char>::empty(),
            old(state).cookie_domain@,
            -1i64,
        ),
{
    state.db.delete_sessions_by_token_or_email(&token, &email);
    let pair = build_cookie_pair(String::new(), String::new(), state.cookie_domain.as_str(), -1);
    (pair, 200u16)
}

/// Logging out with (token, email) removes every session matching either
/// field, and each removed session's token afterwards fails server-side
/// validation — under any email cookie and at any instant.
pub proof fn lemma_logout_invalidates(
    pre: Database,
    post: Database,
    token: Seq<char>,
    email: Seq<char>,
    j: int,
)
    requires
        pre.wf(),
        post.sessions@ == surviving_sessions(pre.sessions@, token, email),
        0 <= j < pre.sessions@.len(),
        pre.sessions@[j].token@ == token || pre.sessions@[j].email@ == email,
    ensures
        !post.has_session_with_token(pre.sessions@[j].token@),
        forall|cookie_email: Seq<char>, now: u64|
            !(#[trigger] post.valid_cookie_pair(pre.sessions@[j].token@, cookie_email, now)),
{
    let s = pre.sessions@[j];
    lemma_surviving_sessions(pre.sessions@, token, email);
    if post.has_session_with_token(s.token@) {
        let k = choose|k: int|
            0 <= k < post.sessions@.len() && (#[trigger] post.sessions@[k]).token@ == s.token@;
        let x = post.sessions@[k];
        let i = choose|i: int| 0 <= i < pre.sessions@.len() && pre.sessions@[i] == x;
        if s.token@ == token {
            assert(false);
        } else {
            assert(pre.sessions@[i].token@ == pre.sessions@[j].token@);
            assert(i == j);
            assert(false);
        }
    }
    assert forall|cookie_email: Seq<char>, now: u64|
        !(#[trigger] post.valid_cookie_pair(s.token@, cookie_email, now)) by {
        if post.valid_cookie_pair(s.token@, cookie_email, now) {
            let k2 = choose|k2: int|
                0 <= k2 < post.sessions@.len() && (#[trigger] post.sessions@[k2]).token@ == s.token@
                    && post.sessions@[k2].email@ == lower_seq(cookie_email) && now
                    <= post.sessions@[k2].expire_date;
            assert(post.has_session_with_token(s.token@));
        }
    }
}

} // verus!
