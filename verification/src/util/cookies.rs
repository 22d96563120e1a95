use vstd::prelude::*;

verus! {

/// One cookie as the backend issues it. `max_age_seconds` is the remaining
/// lifetime handed to the browser; `-1` expires the cookie at once.
#[derive(Debug, Clone)]
pub struct Cookie {
    pub name: String,
    pub value: String,
    pub domain: String,
    pub path: String,
    pub secure: bool,
    pub http_only: bool,
    pub same_site_lax: bool,
    pub max_age_seconds: i64,
}

/// The two cookies that together carry a session to the client: `token`
/// holds the bearer secret and `email` the owning user's lowered email.
#[derive(Debug, Clone)]
pub struct CookiePair {
    pub token_cookie: Cookie,
    pub email_cookie: Cookie,
}

/// What every cookie issued by this backend looks like: exact domain, root
/// path, Secure, HttpOnly, SameSite=Lax, and the given name, value and
/// remaining lifetime.
pub open spec fn cookie_ok(
    c: Cookie,
    name: Seq<char>,
    value: Seq<char>,
    domain: Seq<char>,
    max_age_seconds: i64,
) -> bool {
    &&& c.name@ == name
    &&& c.value@ == value
    &&& c.domain@ == domain
    &&& c.path@ == "/"@
    &&& c.secure
    &&& c.http_only
    &&& c.same_site_lax
    &&& c.max_age_seconds == max_age_seconds
}

/// A full cookie pair carrying `token` and `email` with a shared domain and
/// remaining lifetime.
pub open spec fn cookie_pair_ok(
    p: CookiePair,
    token: Seq<char>,
    email: Seq<char>,
    domain: Seq<char>,
    max_age_seconds: i64,
) -> bool {
    &&& cookie_ok(p.token_cookie, "token"@, token, domain, max_age_seconds)
    &&& cookie_ok(p.email_cookie, "email"@, email, domain, max_age_seconds)
}

/// Builds one backend cookie with the fixed attributes of `cookie_ok`.
pub fn build_cookie(name: &str, value: String, domain: &str, max_age_seconds: i64) -> (c: Cookie)
    ensures
        cookie_ok(c, name@, value@, domain@, max_age_seconds),
{
    Cookie {
        name: String::from_str(name),
        value,
        domain: String::from_str(domain),
        path: String::from_str("/"),
        secure: true,
        http_only: true,
        same_site_lax: true,
        max_age_seconds,
    }
}

/// Builds the cookie pair for a session token and its email snapshot.
pub fn build_cookie_pair(
    token: String,
    email: String,
    domain: &str,
    max_age_seconds: i64,
) -> (p: CookiePair)
    ensures
        cookie_pair_ok(p, token@, email@, domain@, max_age_seconds),
{
    CookiePair {
        token_cookie: build_cookie("token", token, domain, max_age_seconds),
        email_cookie: build_cookie("email", email, domain, max_age_seconds),
    }
}

} // verus!
