//! Control core of a grid-edge power node: the relay inventory and its
//! mutation policies (load shedding, islanding, black start), the node state
//! machine, and the command dispatch that a scheduler drives.  The binary
//! around this library supplies timers, configuration and hardware I/O.

pub mod comms;
pub mod config;
pub mod hal;
pub mod laws;
pub mod node;
pub mod policy;
pub mod types;
