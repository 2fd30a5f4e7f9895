//! Request dispatch over an ordered table of anchored path patterns.
//!
//! Routes are registered on a [`RouterBuilder`] as (method, pattern, handler)
//! triples. `finalize` compiles every pattern, anchored at both ends, into a
//! single-regex matcher per route and one combined set matcher over all of
//! them. A [`Router`] then decides, for a method and a path, which route owns
//! the request, or whether the path is unknown or the method not allowed.

mod error;
mod pattern;
mod laws;
mod reply;
mod router;

pub use error::Error;
pub use pattern::captures_from_groups;
pub use reply::{default_not_found, not_allowed, FixedReply};
pub use router::{Dispatch, Router, RouterBuilder};
