//! Layered ("onion") encryption: a payload is wrapped in successive
//! authenticated-encryption layers, one per relay hop, such that each hop can
//! remove exactly one layer with its own key and never sees the plaintext or
//! any other hop's view of the message.

pub mod encryption;
pub mod error;
pub mod onion;
