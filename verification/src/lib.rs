//! The decision core of an asynchronous Modbus TCP client.
//!
//! Everything the client decides is decided here: what makes a valid configuration ([`builder`],
//! [`ipv4`]), which handles a client keeps and hands out ([`client`]), how a connection is sought
//! and sought again ([`link`]), how often a command is tried and what it is answered
//! ([`command`]), what the worker that owns the connection does next ([`worker`]), and how a
//! request to a Modbus unit runs ([`transaction`]). Sockets, clocks and tasks belong to whoever
//! performs the actions that this crate asks for.
//!
//! What holds of all this stands in modules of its own: [`worker_laws`] speaks of a worker over its
//! whole life and [`worker_step_laws`] of each of its steps, [`link_laws`] of a search for a
//! connection, [`command_laws`] of a command, [`transaction_laws`] of a transaction,
//! [`client_laws`] and [`builder_laws`] of every sequence of calls, [`ipv4_laws`] and
//! [`error_laws`] of addresses and errors, and [`call_laws`] of what each call gives.

pub mod builder;
pub mod builder_laws;
pub mod call_laws;
pub mod channels;
pub mod client;
pub mod client_laws;
pub mod command;
pub mod command_laws;
pub mod error;
pub mod error_laws;
pub mod ipv4;
pub mod ipv4_laws;
pub mod link;
pub mod link_laws;
pub mod transaction;
pub mod transaction_laws;
pub mod worker;
pub mod worker_laws;
pub mod worker_step_laws;

pub use builder::ModbusTCPClientBuilder;
pub use client::ModbusTCPClient;
pub use error::{ModbusTCPError, NoUnit};
pub use link::SocketStateChange;
