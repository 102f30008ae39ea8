pub mod text;
pub mod replicate;
pub mod errors;
pub mod digest;
pub mod sets;
pub mod capability;
pub mod ids;
pub mod durable;
pub mod durable_map;
pub mod weburl;
pub mod json;
pub mod auth;
pub mod account_status;
pub mod browser_login;
pub mod node;
pub mod node_commands;
pub mod automation;
pub mod admin;
pub mod windows_dev;
pub mod environments;
