//! Window configuration and the live window's surface accessor.
//!
//! The builder may adopt a page-owned canvas: if the configuration's
//! logical size is unset at that moment, it is derived from the canvas's
//! current pixel dimensions; an explicitly chosen size always wins. The
//! handle (or its absence) is stored unconditionally for the backend to
//! adopt when the configuration is consumed.

use vstd::prelude::*;

use crate::canvas::CanvasHandle;
use crate::dpi::{LogicalSize, Size};
use crate::web::{WindowBuilderExtWebSys, WindowExtWebSys};

verus! {

/// Backend-agnostic window configuration fields; only the optional inner
/// size takes part in the canvas negotiation.
#[derive(Clone, Copy, PartialEq, Eq, Debug)]
pub struct WindowAttributes {
    pub inner_size: Option<Size>,
}

/// Web-specific configuration: the canvas the backend is to adopt as the
/// window's surface, or `None` to let it create a default one.
#[derive(Clone, Copy, PartialEq, Eq, Debug)]
pub struct PlatformAttributes {
    pub canvas: Option<CanvasHandle>,
}

/// A builder-style window configuration, mutated zero or more times and
/// then consumed by the backend to materialize a window.
#[derive(Clone, Copy, PartialEq, Eq, Debug)]
pub struct WindowBuilder {
    pub window: WindowAttributes,
    pub platform_specific: PlatformAttributes,
}

/// The logical size a canvas lends to a window: its current pixel
/// dimensions, read at association time.
pub open spec fn derived_logical_size(c: CanvasHandle) -> Size {
    Size::Logical(LogicalSize { width: c.width, height: c.height })
}

/// The inner size after a canvas association: an explicitly set prior
/// size always wins; otherwise a supplied canvas lends its dimensions;
/// absence of a canvas never sets a size.
pub open spec fn negotiated_inner_size(prior: Option<Size>, canvas: Option<CanvasHandle>) -> Option<Size> {
    match canvas {
        Some(c) => if prior is Some {
            prior
        } else {
            Some(derived_logical_size(c))
        },
        None => prior,
    }
}

/// The whole configuration after a canvas association: the inner size is
/// negotiated and the handle (or its absence) is stored, overwriting any
/// previous association.
pub open spec fn with_canvas_model(b: WindowBuilder, canvas: Option<CanvasHandle>) -> WindowBuilder {
    WindowBuilder {
        window: WindowAttributes {
            inner_size: negotiated_inner_size(b.window.inner_size, canvas),
        },
        platform_specific: PlatformAttributes { canvas },
    }
}

impl WindowBuilder {
    /// A fresh configuration: no inner size chosen, no canvas associated.
    pub fn new() -> (r: WindowBuilder)
        ensures
            r.window.inner_size is None,
            r.platform_specific.canvas is None,
    {
        WindowBuilder {
            window: WindowAttributes { inner_size: None },
            platform_specific: PlatformAttributes { canvas: None },
        }
    }

    /// Chooses the window's inner size explicitly. A size set this way is
    /// kept through any later canvas association.
    pub fn with_inner_size(self, size: Size) -> (r: WindowBuilder)
        ensures
            r.window.inner_size == Some(size),
            r.platform_specific == self.platform_specific,
    {
        WindowBuilder {
            window: WindowAttributes { inner_size: Some(size) },
            platform_specific: self.platform_specific,
        }
    }

}

/// Last write wins: associating canvases twice stores the second handle,
/// while the inner size is negotiated independently at each call from the
/// state as it stands at that call — a size derived from the first canvas
/// is set state by the time of the second call, and so is kept.
pub proof fn lemma_repeated_association(
    b: WindowBuilder,
    c1: Option<CanvasHandle>,
    c2: Option<CanvasHandle>,
)
    ensures
        with_canvas_model(with_canvas_model(b, c1), c2).platform_specific.canvas == c2,
        b.window.inner_size is Some ==> with_canvas_model(
            with_canvas_model(b, c1),
            c2,
        ).window.inner_size == b.window.inner_size,
        b.window.inner_size is None ==> (c1 matches Some(h) ==> with_canvas_model(
            with_canvas_model(b, c1),
            c2,
        ).window.inner_size == Some(derived_logical_size(h))),
        b.window.inner_size is None && c1 is None ==> (c2 matches Some(h) ==> with_canvas_model(
            with_canvas_model(b, c1),
            c2,
        ).window.inner_size == Some(derived_logical_size(h))),
        b.window.inner_size is None && c1 is None && c2 is None ==> with_canvas_model(
            with_canvas_model(b, c1),
            c2,
        ).window.inner_size is None,
{
}

/// A live window, materialized by the backend from a configuration; it
/// references exactly one canvas handle for its display lifetime.
pub struct Window {
    pub(crate) canvas: CanvasHandle,
}

impl Window {
    /// Wraps the canvas the backend adopted (or created) for the window.
    pub fn new(canvas: CanvasHandle) -> (r: Window)
        ensures
            r.backing_canvas() == canvas,
    {
        Window { canvas }
    }
}

impl WindowExtWebSys for Window {
    closed spec fn backing_canvas(&self) -> CanvasHandle {
        self.canvas
    }

    fn canvas(&self) -> CanvasHandle {
        self.canvas
    }

    fn is_dark_mode(&self, prefers_dark: bool) -> bool {
        prefers_dark
    }
}

impl WindowBuilderExtWebSys for WindowBuilder {
    open spec fn configuration(&self) -> WindowBuilder {
        *self
    }

    fn with_canvas(self, canvas: Option<CanvasHandle>) -> WindowBuilder {
        let inner_size: Option<Size> = match (&canvas, &self.window.inner_size) {
            (Some(c), None) => Some(Size::Logical(LogicalSize { width: c.width, height: c.height })),
            _ => self.window.inner_size,
        };
        WindowBuilder {
            window: WindowAttributes { inner_size },
            platform_specific: PlatformAttributes { canvas },
        }
    }
}

} // verus!
