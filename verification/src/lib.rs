//! Tailoring a résumé to a job description with the help of a chat model.
//!
//! The library holds the rules of that pipeline: how a prompt is assembled
//! from a template, how the conversation sent to the model is laid out, how
//! the document is cut out of the model's reply, and when the result may be
//! written. Reading files, fetching pages and talking to the model are left
//! to the caller, who reports their outcomes back as plain values.

pub mod chat;
pub mod cli;
pub mod error;
pub mod extract;
pub mod pipeline;
pub mod prompt;
pub mod template;
pub mod text;
