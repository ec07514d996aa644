//! The web-target extension surface: retrieving the canvas backing a live
//! window, querying the preferred color scheme, and supplying a canvas of
//! one's own to a window configuration.
//!
//! The library never inserts a canvas into the page; the embedding page
//! owns the element and its layout. When a canvas is supplied, its size
//! is used as the logical size unless one is already configured, and at
//! materialization its style is updated to display at the correct logical
//! size, unless the canvas already has a width or height property in its
//! style.

use vstd::prelude::*;

use crate::canvas::CanvasHandle;
use crate::window::{derived_logical_size, with_canvas_model, WindowBuilder};

verus! {

/// Surface access on a live web-target window.
pub trait WindowExtWebSys {
    /// The canvas handle the window holds as its backing surface.
    spec fn backing_canvas(&self) -> CanvasHandle;

    /// Returns the canvas currently backing the window. It never fails
    /// after creation, and nothing replaces the handle, so the answer is
    /// stable for the window's lifetime.
    fn canvas(&self) -> (r: CanvasHandle)
        ensures
            r == self.backing_canvas(),
    ;

    /// Whether the user agent currently prefers a dark color scheme.
    ///
    /// The preference is read from the embedding environment by the
    /// platform query collaborator and handed in at each call; the answer
    /// is a live pass-through of that report, never cached and independent
    /// of the window's own state or of any earlier call.
    fn is_dark_mode(&self, prefers_dark: bool) -> (r: bool)
        ensures
            r == prefers_dark,
    ;
}

/// Canvas association on a window configuration.
pub trait WindowBuilderExtWebSys: Sized {
    /// The configuration state the association reads and updates.
    spec fn configuration(&self) -> WindowBuilder;

    /// Associates a caller-supplied canvas with the configuration, or
    /// clears the association when `canvas` is `None`.
    ///
    /// If a canvas is supplied and no inner size is set yet, the size
    /// becomes the canvas's current dimensions, as logical pixels; a size
    /// already set — explicit caller intent — is left untouched. The
    /// handle (or its absence) is stored unconditionally, overwriting any
    /// previously stored one. The same configuration is returned, updated,
    /// for further chaining; it never fails, and a zero-sized canvas is
    /// accepted as a degenerate zero logical size.
    fn with_canvas(self, canvas: Option<CanvasHandle>) -> (r: Self)
        ensures
            r.configuration() == with_canvas_model(self.configuration(), canvas),
            r.configuration().platform_specific.canvas == canvas,
            self.configuration().window.inner_size is Some ==> r.configuration().window.inner_size
                == self.configuration().window.inner_size,
            canvas is None ==> r.configuration().window.inner_size
                == self.configuration().window.inner_size,
            self.configuration().window.inner_size is None ==> (canvas matches Some(c)
                ==> r.configuration().window.inner_size == Some(derived_logical_size(c))),
    ;
}

} // verus!
