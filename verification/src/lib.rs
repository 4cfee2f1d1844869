//! A command-line client library for the CNB code-hosting API: the requests
//! of each operation, what is made of their responses, the paging of lists,
//! and how results are shown.
pub mod actions;
pub mod api;
pub mod config;
pub mod endpoint;
pub mod error;
pub mod model;
pub mod output;
pub mod pagination;
pub mod paths;
pub mod response;
pub mod text;
pub mod laws;
