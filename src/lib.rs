//! Weather forecast pipeline for a terminal chart: the forecast model, the
//! series extracted from it, the chart built from that series, and the
//! decisions of the render loop.

pub mod event_loop;
pub mod forecast;
pub mod series;
pub mod text;
pub mod view;
pub mod weather;
