//! Aggregation, deduplication and prioritization engine for a personal
//! merge-request dashboard: collects merge requests from four overlapping
//! query sources, merges them into one set keyed by identity, scores each
//! by actionability, and lays the result out as a sorted table.

pub mod aggregate;
pub mod model;
pub mod render;
pub mod score;
pub mod sources;
