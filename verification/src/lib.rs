//! State and channel plumbing for a tabbed dental-practice shell.
//!
//! The shell redraws many times per second on one thread, which must never
//! wait. Long work runs on a backend and hands its results over through
//! single-slot channels, where the latest value wins. This crate holds what
//! lies between the two: the channels ([`slot`], and the bundles in [`app`]
//! and [`apps::patient_files`]), the tab registry and the root state
//! ([`app`]), the panels ([`apps`]), and the rules by which a list keeps its
//! selection ([`models`]). Drawing and storage are left to the caller, who
//! hands in the clicks of a frame and the state that was stored, and takes
//! back what to draw and what to store.

pub mod app;
pub mod apps;
pub mod models;
pub mod slot;

pub use app::DentrustApp;
