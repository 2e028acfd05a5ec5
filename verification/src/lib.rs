//! A web search library: search engine request planning, result parsing and
//! aggregation, with contracts proved by Verus.
use vstd::prelude::*;

pub mod aggregator;
pub mod analytics;
pub mod codec;
pub mod custom;
pub mod engines;
pub mod error;
pub mod keyed;
pub mod links;
pub mod parser;
pub mod registry;
pub mod searxng;
pub mod selectors;
pub mod state;
pub mod strings;
pub mod tools;
pub mod transport;
pub mod types;
pub mod user_agents;

verus! {
} // verus!
