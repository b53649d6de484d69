//! Client-side mirror of a broker's shared settings object: which announced
//! objects are bound, who owns their proxies and listeners, and the cache of
//! the last property values they reported.

pub mod cache;
pub mod descriptor;
pub mod error;
pub mod history;
pub mod mirror;
pub mod proxies;
