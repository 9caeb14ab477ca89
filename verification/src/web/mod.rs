//! Rules of the web front end that do not depend on HTTP plumbing.

pub mod routes;
