//! A command-line client for a blockchain cluster: the text it prints for a
//! balance and for each log notification, the endpoints it talks to, and the
//! steps of the ping transaction.
pub mod balance;
pub mod decimal;
pub mod endpoints;
pub mod logs;
pub mod ping;
pub mod report;
pub mod text;
