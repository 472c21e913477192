//! A podcast-episode fetcher library: incremental selection of new episodes
//! from a feed, safe filename generation, per-podcast orchestration with
//! partial-failure isolation, and checkpoint bookkeeping.
//!
//! The library holds the decision logic; network and file I/O are performed
//! by the surrounding application, which drives the orchestrator state
//! machine defined in [`run`].

pub mod config;
pub mod download;
pub mod feed;
pub mod image;
pub mod run;
pub mod state;
pub mod tagger;
pub mod text;
pub mod time;
