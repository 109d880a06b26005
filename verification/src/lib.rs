//! Supervision logic for a desktop shell that launches a backend server:
//! where the backend lives on disk, which executable starts it, when it is
//! ready, and what happens to it when the window closes.

pub mod text;
pub mod search;
pub mod paths;
pub mod launcher;
pub mod lifecycle;
pub mod poller;
pub mod notify;
