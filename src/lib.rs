//! Runs a program under a pseudo-terminal and replays what it printed.
//!
//! The library holds the decisions: which size the terminal gets, what the
//! command line asks for, where the program is found, and the order in which
//! the pseudo-terminal's handles are opened, handed out and released.
//! The program around it performs the system calls that those decisions name.
pub mod command;
pub mod drain;
pub mod launch;
pub mod lifecycle;
pub mod size;
