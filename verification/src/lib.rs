//! Device-management building blocks: a credit-controlled stream multiplexer
//! with its frame codec, the framed remote-procedure layer that runs over one
//! channel, and the identifier, path and configuration types around them.

pub mod agent;
pub mod api;
pub mod cert;
pub mod cli;
pub mod client;
pub mod common;
pub mod ids;
pub mod multiplex;
pub mod rpc;
pub mod text;
