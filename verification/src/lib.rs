//! Receipts for executed commands.
//!
//! A receipt records one invocation of an external command: the executable and
//! its arguments, the captured output, the exit status and the timing. This
//! library holds the rules by which a receipt is made and reported; running the
//! command and storing the receipt are left to the caller.

pub mod command;
pub mod decode;
pub mod destination;
pub mod error;
pub mod receipt;
pub mod timestamp;
