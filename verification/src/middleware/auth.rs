use vstd::prelude::*;

use crate::util::app_state::AppState;
use crate::util::database::Database;
use crate::util::text::lower_seq;
use crate::util::user::{clone_user, User};

verus! {

/// The body of a gate rejection: whether an email cookie and a token cookie
/// were at least presented. A hint for the client's login prompt only, never
/// a security signal.
#[derive(Debug, Clone, Copy, PartialEq, Eq, Structural)]
pub struct AuthMiddlewareResponse {
    pub verified_email: bool,
}

/// When a request is allowed through to its handler: both cookies are
/// present and the store validates them as a pair at `now`.
pub open spec fn gate_allows(
    db: Database,
    token: Option<String>,
    email: Option<String>,
    now: u64,
) -> bool {
    &&& token is Some
    &&& email is Some
    &&& db.valid_cookie_pair(token->0@, email->0@, now)
}

/// The request gate in front of every protected route. With both cookies
/// present it resolves the user by the email cookie and validates the
/// session under the token cookie (existence, email snapshot match, expiry);
/// on success it hands the resolved user and the token to the downstream
/// handler, and on any failure it answers 401 with only the presence hint,
/// so no difference between unknown email, bad token and expired session
/// leaks to the client.
pub fn auth_middleware(
    state: &AppState,
    token: Option<String>,
    email: Option<String>,
    now: u64,
) -> (r: Result<(User, String), (u16, AuthMiddlewareResponse)>)
    requires
        state.db.wf(),
    ensures
        (r is Ok) == gate_allows(state.db, token, email, now),
        r matches Ok((u, t)) ==> {
            &&& state.db.users@.contains(u)
            &&& email matches Some(e) && u.email@ == lower_seq(e@)
            &&& token matches Some(tk) && t == tk
        },
        r matches Err((code, body)) ==> code == 401 && body.verified_email == (token is Some
            && email is Some),
{
    match (token, email) {
        (Some(tk), Some(em)) => {
            match User::get_by_email(state, em.as_str()) {
                Ok(user) => {
                    if user.is_logged_in(state, tk.clone(), now) {
                        Ok((user, tk))
                    } else {
                        Err((401u16, AuthMiddlewareResponse { verified_email: true }))
                    }
                },
                Err(_) => Err((401u16, AuthMiddlewareResponse { verified_email: true })),
            }
        },
        _ => Err((401u16, AuthMiddlewareResponse { verified_email: false })),
    }
}

} // verus!
