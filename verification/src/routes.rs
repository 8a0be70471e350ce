//! The pure parts of the `/api` routes that sit outside the HTTP layer
//! proper: the health probe's payloads and the cookie-jar session
//! endpoints.

pub mod health;
pub mod session;
