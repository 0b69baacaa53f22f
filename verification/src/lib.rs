//! A verified core for a small charting example: a fixed two-series
//! frequency-response dataset, its validation against a logarithmic x axis,
//! and the complete plan of the chart (axes, key points, margins, colours,
//! line points) that a plotting backend then renders.

pub mod config;
pub mod data;
pub mod palette;
pub mod plan;
