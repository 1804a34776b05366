//! Decision logic of a load generator for Ethereum-style nodes: what each spam
//! tick sends, when the ticks fire, how the server answers requests about its
//! sessions, and when spammer accounts are topped up.
pub mod agents;
pub mod amount;
pub mod batch_composer;
pub mod error;
pub mod funding;
pub mod handles;
pub mod laws;
pub mod params;
pub mod request;
pub mod server;
pub mod session;
pub mod spam_run;
pub mod text;
pub mod timed;
