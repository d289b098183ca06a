//! A grammar specification language, together with the data model of its tokens and the
//! stream executor that drives its parsers.

pub mod messaging;
pub mod collection;
pub mod components;
pub mod pipeline;
pub mod utils;
pub mod type_info;
pub mod model;
pub mod text;
pub mod executor;
