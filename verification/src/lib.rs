//! Verified core of the bagel notes and projects API: what each handler reads from a
//! request, how it answers from what the store returned, and the order of lists.

pub mod error;
pub mod health;
pub mod listing;
pub mod notes;
pub mod projects;
pub mod text;
