//! A verified filter-predicate engine for tabletop reference data.
//!
//! Monster and spell records arrive as semi-structured JSON whose field
//! shapes drift across data sources (a "type" that is sometimes a string and
//! sometimes an object, a "speed" that is sometimes a number and sometimes a
//! keyed map). The engine normalizes those shapes into canonical comparison
//! values and decides, for a typed bag of optional query parameters, which
//! records match. Every matching rule is stated as a spec function, and the
//! executable filters are proved to return exactly the matching subsequence
//! of their input, in its original order.

pub mod filter_spells;
pub mod filters;
pub mod json;
pub mod queries;
pub mod seq_facts;
pub mod text;
