//! Connection, frame and message logic of a WebSocket and GraphQL request client.
//!
//! The actors that talk to servers are split in two: the decisions they take
//! (what to report, when to connect, disconnect or stop) are pure state machines
//! in this library, and the asynchronous runtime that performs the network and
//! channel work around them lives in the application.

pub mod actors;
pub mod graphql_tab_state;
pub mod web_socket_tab_state;
