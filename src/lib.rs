pub mod argo;
pub mod auth;
pub mod error;
pub mod github;
pub mod helm;
pub mod merge;
pub mod pipeline;
pub mod project;
pub mod text;
pub mod webhook;
pub mod yaml;
