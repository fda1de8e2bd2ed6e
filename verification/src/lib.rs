//! A fleet of remote hosts, managed over SSH: the decisions behind retrying,
//! scheduling, resumable transfer and interactive shells, kept apart from the
//! network so that each can be stated and proved.

pub mod cli;
pub mod component;
pub mod config;
pub mod copying;
pub mod executor;
pub mod fail2ban;
pub mod firewall;
pub mod init;
pub mod multishell;
pub mod outcome;
pub mod retry;
pub mod script;
pub mod ssh;
pub mod steps;
pub mod text;
pub mod transfer;
pub mod tree;
pub mod utils;
