//! Vocabulary flashcards: term identity, validation, Leitner scheduling and
//! multiple-choice practice generation.

pub mod text;
pub mod envelope;
pub mod instant;
pub mod model;
pub mod scheduler;
pub mod terms;
pub mod categories;
pub mod learners;
pub mod vocabulary_entries;
pub mod translation_direction;
pub mod direction_progress;
pub mod practice_sessions;
pub mod http;
pub mod routes;
pub mod identity;
pub mod config;
