//! The contact pipeline of a résumé site: it resolves the caller's address,
//! decides on the human-verification verdict, composes the email and maps
//! every outcome to the answer the visitor sees.

pub mod address;
pub mod message;
pub mod pipeline;
