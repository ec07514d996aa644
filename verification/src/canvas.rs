//! A model of the page-owned canvas element, as the configuration logic
//! sees it: its current pixel-buffer dimensions and the size-related part
//! of its CSS style.
//!
//! The element itself lives in and is owned by the embedding page; the
//! caller snapshots the values the negotiation reads into this type at
//! the moment of the call. A later resize of the page's element is not
//! re-read: the snapshot semantics are intentional.

use vstd::prelude::*;

verus! {

/// The size-related part of a canvas's CSS style: the declared display
/// width and height in logical pixels, or `None` where the page declares
/// none. Properties outside these two are never touched by the library.
#[derive(Clone, Copy, PartialEq, Eq, Debug)]
pub struct CanvasStyle {
    pub width: Option<u32>,
    pub height: Option<u32>,
}

/// A page-owned rectangular drawing surface: its current width and height
/// in integer pixels, and its mutable size style.
#[derive(Clone, Copy, PartialEq, Eq, Debug)]
pub struct CanvasHandle {
    pub width: u32,
    pub height: u32,
    pub style: CanvasStyle,
}

/// Holds when the page has authored an explicit width or height in the
/// canvas's style. Such a style always wins over the library-computed one.
pub open spec fn style_declares_size(s: CanvasStyle) -> bool {
    s.width is Some || s.height is Some
}

impl CanvasStyle {
    /// A style with no declared width or height.
    pub fn unset() -> (r: CanvasStyle)
        ensures
            !style_declares_size(r),
            r == (CanvasStyle { width: None, height: None }),
    {
        CanvasStyle { width: None, height: None }
    }
}

impl CanvasHandle {
    pub fn new(width: u32, height: u32, style: CanvasStyle) -> (r: CanvasHandle)
        ensures
            r == (CanvasHandle { width, height, style }),
    {
        CanvasHandle { width, height, style }
    }
}

} // verus!
