//! Client-side utility library for WebAssembly actors running inside a
//! capability-oriented host runtime.
//!
//! The heart of the library is the asynchronous callback correlation
//! mechanism: a host capability call is fire-and-forget from the actor's
//! perspective, and the actual reply arrives later as a separate broker
//! message.  The library correlates a generated identifier with a previously
//! registered one-shot callback, keeps that callback in a registry, and hands
//! it the reply exactly once when a matching message is dispatched.
//!
//! On top of the registry sit the request dispatch API ([`action`]), the
//! hierarchical subject/reply addressing conventions ([`address`]), and the
//! actor-to-actor "intercom" variant with its `post`/`request`/`reply`
//! subject prefixes.

pub mod action;
pub mod address;
pub mod codec;
pub mod collector;
pub mod common;
pub mod error;
pub mod message;
pub mod p2p;
pub mod string_map;
pub mod util;
pub mod vmh;
