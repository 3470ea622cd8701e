//! A short-lived cache for currency conversion results, together with the
//! decisions of the conversion service that consults it.
//!
//! The library performs no I/O and holds no global state. Its caller owns the
//! cache and guards it, reads the clock, talks to the upstream rate source and
//! multiplies amounts; what to do next is decided here, and every decision is
//! stated as a contract over the cache's view as a mapping.
//!
//! - [`cache`]: the store of results, with its time to live and its purge.
//! - [`request`]: a conversion request, its cache key and its upstream address.
//! - [`rates`]: the rate table that upstream gives.
//! - [`conversion`]: the steps of a conversion, from request to result.
//! - [`clock`]: the current time in seconds.
//! - [`currencies`]: the catalogue of currency names.
//! - [`greeting`]: the greeting of a named user.

pub mod cache;
pub mod clock;
pub mod conversion;
pub mod currencies;
pub mod greeting;
pub mod rates;
pub mod request;
