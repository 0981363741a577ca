//! Response shaping for a video recorder's HTTP interface: storage snapshots
//! become client-facing views, and views become JSON text.

pub mod sorted_map;
pub mod model;
pub mod views;
pub mod json;
pub mod laws;
