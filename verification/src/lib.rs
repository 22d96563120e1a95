//! Authentication and session-management core of a web application backend.
//!
//! The library models the identity store (users and their provider accounts),
//! the session store, the session issuer with its cookie pair, the request
//! gate that protects resource routes, and the session lifecycle endpoints
//! (verify and logout), together with the proofs that tie them together.

pub mod middleware;
pub mod routes;
pub mod util;
