//! A small flashcard-style quiz library.
//!
//! A quiz is an ordered list of question records, each with a prompt, two
//! hints and an answer. The library parses quiz files, owns the viewer's
//! state (current question, per-field visibility, display scale) and
//! implements every state transition the viewer performs.

pub mod parse;
pub mod quiz;
pub mod state;
