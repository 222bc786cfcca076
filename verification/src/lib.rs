//! Request logic of an OCA bundle repository: the cache of built OCA files,
//! the checks and defaults applied to each request, and the namespace tokens.

pub mod text;

pub mod hashing;
pub mod cache;
pub mod language;
pub mod said_param;
pub mod routes;
pub mod configuration;
pub mod logging;
pub mod ledger;
pub mod base64;
