//! A client that gets transactions into a block of a Cosmos SDK chain.
//!
//! The crate is the client's core without its I/O. Every function computes
//! on plain values and states what it returns; talking to a wallet, a gas
//! policy and a node is left to the caller, who is told at each step what to
//! ask and hands back what was answered.
//!
//! - [`pipeline`] is one call from first to last, and [`broadcast`] its last
//!   stage, from the signed bytes to the block; [`trace`] holds what is true
//!   of every run of that stage.
//! - [`account`], [`gas`], [`tx`] and [`response`] are the steps on the way:
//!   the signer's account, the gas, the bytes to sign and to submit, and the
//!   response of a message.
//! - [`body`], [`auth`] and [`envelope`] are the messages that a transaction
//!   is made of, and [`wire`], [`varint`] and [`text`] the format that they
//!   are written in.
//! - [`rpc`] and [`error`] are what a node answers and how a call can fail;
//!   [`hash`] is the identifier of a transaction; [`client`] holds the three
//!   capabilities of a client together.

pub mod account;
pub mod auth;
pub mod body;
pub mod broadcast;
pub mod client;
pub mod envelope;
pub mod error;
pub mod gas;
pub mod hash;
pub mod pipeline;
pub mod response;
pub mod rpc;
pub mod text;
pub mod trace;
pub mod tx;
pub mod varint;
pub mod wire;
