//! The local tester: seeded personas and their development keys, the list
//! filters and orderings of the read-only views, code-hash text, and the
//! command grammar of the tester's command line.
pub mod text;
pub mod personas;
pub mod watch;
pub mod codehash;
pub mod cli;
