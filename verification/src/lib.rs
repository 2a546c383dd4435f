//! Verified core of an approval-gated remote shell: the decisions a shell
//! server makes about incoming commands, the text it sends to the approver,
//! and the terminal bookkeeping of the clients that talk to it.

pub mod text;
pub mod outside;
pub mod markdown;
pub mod json;
pub mod ansi;
pub mod keys;
pub mod approval;
pub mod server;
pub mod echo;
pub mod client;
