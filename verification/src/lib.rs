//! Building blocks to test Web of Things things.
//!
//! The crate holds what a tester knows and decides: how two Thing Descriptions
//! are compared, which messages a lamp may send, what a fade action may answer
//! and in which order a thing is queried. The network itself is left to the
//! program around it.

pub mod json;
pub mod lamp;
pub mod number;
pub mod td;
pub mod tester;
pub mod text;
pub mod trusted;

pub use tester::{check_no_incoming_messages, test_property};
