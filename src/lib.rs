// A model of the host's open sockets for an interactive dashboard: one
// snapshot split by protocol, the text shown for each socket, and the focus
// and per-protocol cursors that key presses move.

pub mod socket;
pub mod text;
pub mod errors;
pub mod app;
