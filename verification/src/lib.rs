//! PhantomFTP: the verified core of a terminal FTP/FTPS client.
//!
//! The library holds the client's state machine, its configuration model,
//! the parsers for FTP directory listings, the rules for importing server
//! profiles, and what the screen shows. Terminal drawing, networking and
//! file access live in the application around it.

pub mod text;
pub mod transfer;
pub mod view;
pub mod app;
pub mod config;
pub mod dialog;
pub mod ftp;
pub mod import;
pub mod order;
