//! The HTTP layer's pure parts: request bodies, the error type and its
//! status mapping, cookie text, and the decisions each handler makes
//! between reading a request and touching the store.

pub mod categories;
pub mod cookies;
pub mod error;
pub mod handlers;
pub mod learners;
pub mod practice_sessions;
pub mod session;
pub mod vocabulary_entries;
