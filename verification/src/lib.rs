//! Core model of a half-keyboard typing trainer.
//!
//! The crate holds the pure state of the trainer: dictionaries of practice
//! words and the sources that produce them (`words`), the in-progress typing
//! session with its word queue and streak counter (`session`), the per-key
//! held/just-pressed tracking that drives key highlighting (`keyboard`), and
//! the application-level state that ties them together (`app`).  Rendering,
//! audio and network fetching are collaborators outside the crate: they read
//! the state exposed here and forward raw input events to it.

pub mod app;
pub mod keyboard;
pub mod random;
pub mod session;
pub mod text;
pub mod text_container;
pub mod windows;
pub mod words;
