//! A verified layout engine for multi-series histogram charts.
//!
//! Given chart dimensions, textual metadata, category labels, and numeric
//! data series, the library computes the plot-area geometry, builds a
//! stylesheet, and assembles a fully positioned vector-graphics scene tree
//! that a host can serialize and display.

pub mod chart;
pub mod geometry;
pub mod scene;
pub mod style;
pub mod text;
