//! An event multiplexer for an interactive terminal application, and the
//! document record that the application edits.
//!
//! Two producers, a key reader and a fixed-interval ticker, publish into one
//! ordered channel that a render loop drains. The channel discipline and the
//! producers' decisions live here with their contracts; the threads and the
//! terminal are driven by the program around the library.

pub mod channel;
pub mod document;
pub mod event;
pub mod producer;
