//! Resolution of compact temporal expressions into instants on the UTC
//! timeline, together with the small amount of request handling logic that
//! surrounds it.

pub mod abbr;
pub mod config;
pub mod dataset;
pub mod duration;
pub mod error;
pub mod instant;
pub mod offset;
pub mod parse;
pub mod render;
pub mod resolve;
pub mod separator;
pub mod text;
pub mod utils;
