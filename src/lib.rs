//! A terminal player session over remote audio catalogs: the view state
//! machine, the decisions around the fetch/play pipeline, the visualization
//! levels, the download status slot and the catalog request/response logic.
//! Processes, signals, network and terminal I/O are performed by the caller
//! on the values these modules hand out.

pub mod catalog;
pub mod download;
mod json;
pub mod pipeline;
pub mod sampler;
pub mod session;
pub mod text;
