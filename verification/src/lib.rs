//! Decision logic of a chat relay in front of a single inference backend.
//!
//! The relay takes short commands from a chat, asks one HTTP backend, and
//! answers each command with exactly one message. This library holds the
//! decisions and none of the I/O:
//!
//! - [`dispatcher`] decides, step by step, what is done for a command;
//! - [`handling`] states what those steps come to for every command and
//!   every behaviour of the backend;
//! - [`inference`] builds the request and reads the reply out of the answer;
//! - [`health`] turns a health answer into words;
//! - [`signaler`] keeps the typing indicator alive while a call is out;
//! - [`json`] and [`text`] hold the documents and numerals they work on.

pub mod dispatcher;
pub mod handling;
pub mod health;
pub mod inference;
pub mod json;
pub mod signaler;
pub mod text;
