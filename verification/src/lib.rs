//! Core of a weather-station metrics exporter: request construction and
//! response classification for the upstream station API, the gauge model
//! that observations are folded into, the refresh schedule that drives
//! both, and the routing of the exposition endpoint. The surrounding
//! program sends the requests this library describes and hands back what
//! came of them.

pub mod client;
pub mod encoding;
pub mod http;
pub mod metrics;
pub mod text;
pub mod update;
