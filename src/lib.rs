//! Credentials of a command-line client: where each credential comes from
//! (command line, environment, stored configuration), how the stored record set
//! is kept and updated, and how a password is held either inline or in the OS
//! secret store.

pub mod credential;
pub mod options;
pub mod resolve;
pub mod vault;
