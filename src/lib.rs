//! Build-and-release core of a mobile-app build helper: build-task composition,
//! artifact discovery and staging, and publishing to distribution platforms.

pub mod text;
pub mod project;
pub mod locate;
pub mod orchestrate;
pub mod stage;
pub mod env;
pub mod publish;
pub mod json;
pub mod signed_upload;
pub mod cli_upload;
pub mod registry;
