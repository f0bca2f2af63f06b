//! Core logic of a small e-paper weather dashboard: a provider-code
//! classifier, fixed-point text formatting, a fixed draw layout, the panel
//! state machine, and the refresh-cycle coordinator. Hardware and network
//! I/O live outside this crate; the functions here take plain values and
//! return the decisions (draw operations, panel commands) that a driver
//! loop carries out.

pub mod dashboard;
pub mod date;
pub mod fetch;
pub mod icons;
pub mod panel;
pub mod textfmt;
pub mod weather;
