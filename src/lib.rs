//! A file-chooser portal backend that hands each request to a user-supplied
//! picker script: mapping request options to script options, the script
//! invocation protocol, and the encoding of portal responses, each with a
//! verified contract.

pub mod config;
pub mod file_chooser;
pub mod json;
mod lines;
pub mod runner;
pub mod save_path;
pub mod text;
