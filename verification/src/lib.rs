//! A small library behind an interactive viewer of the desktop's window
//! hierarchy: it keeps two cursor-tracking lists (top-level windows and the
//! children of the selected one) consistent while the user navigates and
//! while the underlying window set changes between refreshes.

pub mod control;
pub mod list;
pub mod state;
pub mod window;
