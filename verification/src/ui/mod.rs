//! The administration panel as its user drives it: what it holds, what it asks
//! the service for, and what it makes of the answers. Drawing is left to the
//! program that shows the panel.

pub mod user;
