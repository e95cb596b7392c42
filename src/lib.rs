//! A generic last-in-first-out stack whose operations are specified over a
//! mathematical sequence: the element at the end of the sequence is the top.

pub mod stack;

pub use stack::Stack;
