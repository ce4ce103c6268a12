//! The frame in which an engine application is set up and run.

pub mod application;
