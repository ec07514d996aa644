//! The backend's canvas-adoption step, applied when a configuration with
//! an associated canvas is materialized into a window.
//!
//! The negotiated logical size is converted to physical pixels by the DPI
//! collaborator (out of scope here; the physical size arrives as an
//! argument) and written into the canvas's pixel buffer. The display
//! style is updated to render at the logical size — unless the page
//! already declared an explicit width or height in the canvas's style, in
//! which case the style is left untouched: a page-authored style always
//! wins over the library-computed one. This rule reads the CSS style, not
//! the configuration's size field, and so is independent of how the
//! logical size itself was negotiated.

use vstd::prelude::*;

use crate::canvas::{style_declares_size, CanvasHandle, CanvasStyle};
use crate::dpi::{LogicalSize, PhysicalSize};

verus! {

/// The style a canvas carries after adoption: the negotiated logical size
/// is written into it only when the page has not already declared a width
/// or height of its own.
pub open spec fn adopted_style(prior: CanvasStyle, logical: LogicalSize) -> CanvasStyle {
    if style_declares_size(prior) {
        prior
    } else {
        CanvasStyle { width: Some(logical.width), height: Some(logical.height) }
    }
}

/// Adopts a supplied canvas as a window's surface: the pixel buffer takes
/// the physical size, and the style takes the logical size unless the
/// page declared an explicit width or height, which is then kept as it
/// stands. Nothing outside the buffer dimensions and the size part of the
/// style is touched, so reapplying the step is harmless.
pub fn apply_negotiated_size(
    canvas: CanvasHandle,
    logical: LogicalSize,
    physical: PhysicalSize,
) -> (r: CanvasHandle)
    ensures
        r.width == physical.width,
        r.height == physical.height,
        r.style == adopted_style(canvas.style, logical),
        style_declares_size(canvas.style) ==> r.style == canvas.style,
        !style_declares_size(canvas.style) ==> r.style == (CanvasStyle {
            width: Some(logical.width),
            height: Some(logical.height),
        }),
{
    let style = if canvas.style.width.is_some() || canvas.style.height.is_some() {
        canvas.style
    } else {
        CanvasStyle { width: Some(logical.width), height: Some(logical.height) }
    };
    CanvasHandle { width: physical.width, height: physical.height, style }
}

/// Reapplying the adoption step with the same sizes changes nothing: the
/// style written by a first adoption is an explicitly declared style to a
/// second, and so is kept — and the buffer dimensions are simply
/// overwritten with the same physical values.
pub proof fn lemma_adoption_idempotent(style: CanvasStyle, logical: LogicalSize)
    ensures
        adopted_style(adopted_style(style, logical), logical) == adopted_style(style, logical),
{
}

} // verus!
