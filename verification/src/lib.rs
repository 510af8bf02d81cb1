//! A retained scene model for systems-theory diagrams.
//!
//! Diagram elements live in an arena of node records with stable handles.
//! Spawning an external entity places it at the depth of the focused system,
//! scales it by depth and zoom, wires it to its flow and queues it for the
//! decorators, which add name labels and equivalence markers on the next pass.
//! All lengths and factors are fixed-point integers; a renderer turns the
//! model into pixels.

pub mod units;
pub mod decimal;
pub mod nesting;
pub mod model_browser;
pub mod components;
pub mod geometry;
pub mod scene;
pub mod spawn;
pub mod decorators;
pub mod data_model;
pub mod equivalence;
