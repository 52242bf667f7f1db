//! Core of a chat server: the length-prefixed frame codec, the messages of the
//! live and control protocols, and the per-connection request dispatchers that
//! drive login, session restore and channel creation against a storage service.

pub mod client;
pub mod codec;
pub mod connector;
pub mod control;
pub mod generators;
pub mod live;
pub mod opts;
pub mod protocol;
pub mod storage;
pub mod types;
