use vstd::prelude::*;

use crate::middleware::auth::gate_allows;
use crate::util::app_state::AppState;
use crate::util::user::User;

verus! {

/// The verify endpoint's answer: whether the presented cookies identify a
/// live session.
#[derive(Debug, Clone, Copy, PartialEq, Eq, Structural)]
pub struct VerifyResponse {
    pub authenticated: bool,
}

/// The verify endpoint: reports `authenticated` exactly when
/// `auth_middleware` would accept the same cookies at `now`. It never
/// errors; missing cookies simply answer "not authenticated".
pub fn verify_auth(
    state: &AppState,
    token: Option<String>,
    email: Option<String>,
    now: u64,
) -> (r: VerifyResponse)
    requires
        state.db.wf(),
    ensures
        r.authenticated == gate_allows(state.db, token, email, now),
{
    match (token, email) {
        (Some(tk), Some(em)) => {
            match User::get_by_email(state, em.as_str()) {
                Ok(user) => {
                    if user.is_logged_in(state, tk, now) {
                        VerifyResponse { authenticated: true }
                    } else {
                        VerifyResponse { authenticated: false }
                    }
                },
                Err(_) => VerifyResponse { authenticated: false },
            }
        },
        _ => VerifyResponse { authenticated: false },
    }
}

} // verus!
