//! Link-resolution and equivalence-caching engine for music links.
//!
//! A submitted streaming link (for example a Spotify track URL) is resolved
//! into its equivalents on the other tracked platforms. Results are cached in
//! an equivalence store: every link ever seen for a song becomes an alias of
//! one canonical record, so later lookups of any alias are served from the
//! store without calling the upstream resolution API again.

pub mod backend;
pub mod country;
pub mod graphql;
pub mod models;
pub mod platform;
pub mod record;
pub mod service;
pub mod store;
