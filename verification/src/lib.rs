pub mod call;
pub mod config;
pub mod download;
pub mod error;
pub mod hash;
pub mod manifest;
pub mod patch;
pub mod path;
pub mod plan;
pub mod scan;
pub mod status;
pub mod text;
pub mod web;
pub mod winpath;

pub use error::Error;
pub use plan::PatchPlan;
