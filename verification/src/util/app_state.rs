use vstd::prelude::*;

use crate::util::database::Database;

verus! {

/// The application context threaded into every component: the store and the
/// two configured domains (the application's home domain and the domain the
/// cookies are scoped to). Built once at startup and passed by reference.
pub struct AppState {
    pub db: Database,
    pub domain: String,
    pub cookie_domain: String,
}

impl AppState {
    /// Opens a fresh application context over an empty store.
    pub fn new(domain: String, cookie_domain: String) -> (r: AppState)
        ensures
            r.db.wf(),
            r.db.users@.len() == 0,
            r.db.accounts@.len() == 0,
            r.db.sessions@.len() == 0,
            r.domain == domain,
            r.cookie_domain == cookie_domain,
    {
        AppState { db: Database::empty(), domain, cookie_domain }
    }
}

} // verus!
