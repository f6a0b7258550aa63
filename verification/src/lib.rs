//! Resolves a channel handle to a channel identifier, accumulates the
//! channel's videos across paginated search responses, and renders the
//! collected records as a delimited text document.
//!
//! The library holds the decision logic of each stage: interpreting a
//! lookup response, stepping the pagination loop, and encoding records.
//! Network transport and the file system stay with the caller, which
//! feeds response bodies in and carries the finished document out.

pub mod failure;
pub mod json_raw;
pub mod parse;
pub mod records;
pub mod resolve;
pub mod session;
pub mod writer;
