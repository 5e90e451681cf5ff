//! The logic of a toolkit for coding agents: what is kept and shown of the
//! hits of a session-history search, and the command lines of the tools
//! that the toolkit drives.

pub mod argv;
pub mod filter;
pub mod hit;
pub mod init;
pub mod issues;
pub mod json;
pub mod mail;
pub mod markdown;
pub mod memory;
pub mod render;
pub mod repo;
pub mod schedule;
pub mod score;
pub mod search;
pub mod section;
pub mod text;
pub mod time;
pub mod tools;
