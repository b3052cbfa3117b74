//! Client-side request and response pipeline for the Metasploit RPC service.
//!
//! The crate builds MessagePack request envelopes, resolves raw replies into
//! values or structured failures, and states what each step returns.
#![allow(non_camel_case_types)]

pub mod number;
pub mod text;
pub mod value;
pub mod wire;
pub mod roundtrip;
pub mod encoder;
pub mod decoder;
pub mod shape;
pub mod error;
pub mod access;
pub mod resolver;
pub mod client;
pub mod catalog;
pub mod pipeline;
pub mod scripted;
pub mod reply;
pub mod msf;
pub mod laws;
