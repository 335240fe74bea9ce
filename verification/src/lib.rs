//! Data model for a job-application tracker.
//!
//! The crate holds the domain vocabulary and record shapes: accounts and
//! sessions, job applications with a closed status vocabulary, and the two
//! append-only logs (status changes and notes) that together form an
//! application's timeline. Each status and timeline kind has a canonical
//! lowercase wire token; statuses also have a capitalized display form.
//! Timestamps are kept as text whose lexicographic order is the chronological
//! order (as with ISO-8601 strings), and the timeline module merges the two
//! logs into one feed ordered that way.

pub mod db;
pub mod text;
pub mod timeline;
