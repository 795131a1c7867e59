pub mod command;
pub mod manifest;
pub mod request;
pub mod response;
pub mod text;
pub mod toml_api;
