//! Routing of repository webhook events to chat channels.
//!
//! An event is normalised into a uniform set of queryable fields, matched
//! against an ordered list of rules to obtain one routing decision per
//! channel, and composed into a message.

pub mod text;
pub mod dispatch;
pub mod github;
pub mod pattern;
pub mod rule;
pub mod signature;
pub mod message;
pub mod routing;
pub mod slack;

pub use routing::RuleMatchResult;
pub use rule::{Query, Rule};
