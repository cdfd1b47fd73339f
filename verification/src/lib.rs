//! Enrollment, completion progress and rating rules of an e-learning catalog.
//!
//! The workflows of the service (registering for a course, completing a
//! class, naming a status, rating a course, leaving a course) are functions
//! from a stage and the reply of a store to the next stage and the next call:
//! [`enrollment`], [`completion`], [`appraisal`]. Whoever runs them performs
//! the calls. [`campus`] holds the stores in memory, [`service`] runs the
//! workflows on them, and [`laws`] states what holds of every run.

pub mod account;
pub mod appraisal;
pub mod campus;
pub mod catalog;
pub mod class;
mod clock;
pub mod comment;
pub mod completed;
pub mod completion;
pub mod course;
pub mod enrollment;
pub mod error;
pub mod item;
pub mod laws;
pub mod ledger;
pub mod mirror;
pub mod object_id;
pub mod progress;
pub mod rating;
pub mod request;
pub mod service;
pub mod sorting;
pub mod store;
pub mod text;
pub mod unit;
pub mod users;
