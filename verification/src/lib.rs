//! A true/false flashcard quiz: the rules of authoring, shuffling, presenting
//! and scoring questions, with no terminal or file access of its own.

pub mod authoring;
pub mod progress;
pub mod question;
pub mod quiz;
pub mod render;
pub mod score;
pub mod shuffle;
pub mod text;
