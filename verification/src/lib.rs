//! A terminal tool for exercising network protocols, as a library: the
//! handlers of each protocol and role with their engine and registry of
//! peers, the state of the user interface, and the utilities around them.
//! Nothing in here touches the network or the terminal; the program around
//! the library does, and tells the library what happened.

pub mod app;
pub mod cli;
pub mod config;
pub mod protocols;
pub mod ui;
pub mod utils;
