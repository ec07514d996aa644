//! Web-target window configuration: canvas-to-window size negotiation.
//!
//! A window configuration may adopt a page-owned canvas element as the
//! window's backing surface. When it does, the window's logical size is
//! derived from the canvas's current pixel dimensions unless the caller
//! has already chosen a size; at materialization time the canvas's pixel
//! buffer takes the physical size, while a page-authored style always
//! wins over the library-computed display style.

pub mod canvas;
pub mod dpi;
pub mod surface;
pub mod web;
pub mod window;
