//! Decision logic of a synthetic order feed over one duplex message session:
//! how a trade order is made from random draws, how each unit that arrives from
//! the server is classified, and in which sequence the sending side encodes,
//! sends, reports and pauses.
//!
//! Nothing here performs I/O. The program around this library owns the
//! connection, reads and writes it, and hands what happened to the functions
//! below as plain values.

pub mod inbound;
pub mod order;
pub mod pump;
pub mod runs;
pub mod source;
