//! The core of a travel planner: plans that own an ordered list of items,
//! the places, accommodations and restaurants that those items point at,
//! and one free-text search across the three kinds.
//!
//! The operations live in `travel_plans`, `places`, `accommodations`,
//! `restaurants` and `search`. They work on an `AppState`, which holds
//! every table in memory (`plan_store`, `entity_table`); what the tables
//! hold and how each statement changes them is said in `model` and
//! `entity`, and what follows across operations is proved in `laws`.
//!
//! A service that keeps its data in another storage engine runs the
//! statements itself, reports what the engine said in the terms of
//! `storage`, and lets `outcome` and `search::SearchRun` decide what the
//! operation answers. The operations on `AppState` decide through the same
//! functions.

pub mod accommodations;
pub mod db;
pub mod entity;
pub mod entity_table;
pub mod error;
pub mod laws;
pub mod model;
pub mod outcome;
pub mod places;
pub mod plan_store;
pub mod restaurants;
pub mod search;
pub mod seq_facts;
pub mod sql;
pub mod serializer;
pub mod status;
pub mod storage;
pub mod text;
pub mod travel_plans;
