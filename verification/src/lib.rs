//! The event core of a chat node for the local network.
//!
//! A node finds other nodes on the network, exchanges lines of chat with
//! them, sends files in blocks and relays video and audio. This library
//! holds what a node decides: what each event of the network, of the
//! terminal and of its own tasks does to the state of the node, and what
//! it asks of the transport, the disk and the screen. What is stated of
//! its functions is proved, but for the few calls into `message_io` and
//! the standard library, whose contracts are taken on trust.

pub mod action;
pub mod application;
pub mod commands;
pub mod events;
pub mod message;
pub mod read_event;
pub mod state;
pub mod task;
pub mod terminal_events;
pub mod text;
pub mod transfer;
