//! Verified core of a mediation-case tracking store.
//!
//! The library models a single-office caseload: intake records keyed by
//! `(case_no, year)`, disposition updates, the "today's docket" and filtered
//! range queries with an outcome summary, and a registry of mediator names.
//! All record logic is verified; the desktop shell and the on-disk engine
//! live outside the library and exchange plain values with it.

pub mod calendar;
pub mod categories;
pub mod commands;
pub mod decode;
pub mod paths;
pub mod sql;
pub mod store;
pub mod text;
