//! Channel messaging core.

pub mod action;
pub mod command;
pub mod content;
pub mod json;
pub mod mirror;
pub mod orchestrator;
pub mod poll;
pub mod reply;
pub mod repository;
pub mod response;
pub mod stream_relay;
pub mod text;
pub mod title;
pub mod types;
pub mod weixin;
