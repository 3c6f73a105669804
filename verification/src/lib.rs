//! The logic of asynchronous V8 bindings for Python.
//!
//! An isolate runs on a thread of its own and is driven by requests; a task on the Python
//! side calls the functions that scripts ask for. What the two sides decide stands here,
//! from plain values to plain values. The engine, the interpreter and the event loop are
//! outside: they are asked through closures, or through the actions that the two tasks
//! hand out.
pub mod bridging;
pub mod channels;
pub mod error;
pub mod isolates;
pub mod stack;
pub mod text;
pub mod transmit;
