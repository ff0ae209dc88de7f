//! Nimbus: the decisions and data shaping of a small weather tray
//! application, verified with Verus.

pub mod config;
pub mod weather;
pub mod text;
pub mod geo;
pub mod tray;
pub mod control;
pub mod settings;
