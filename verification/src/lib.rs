//! Session orchestration for an input method that lets a full editor compose
//! the text of whichever field has focus.

pub mod config;
pub mod coordinator;
pub mod editor;
pub mod message;
pub mod mode;
pub mod passthrough;
pub mod placement;
pub mod wake;
