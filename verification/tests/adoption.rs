use web_window::canvas::{CanvasHandle, CanvasStyle};
use web_window::dpi::{LogicalSize, PhysicalSize};
use web_window::surface::apply_negotiated_size;

#[test]
fn page_declared_style_width_is_kept() {
    let style = CanvasStyle {
        width: Some(640),
        height: None,
    };
    let canvas = CanvasHandle::new(300, 150, style);
    let adopted = apply_negotiated_size(
        canvas,
        LogicalSize::new(300, 150),
        PhysicalSize::new(600, 300),
    );
    // The pixel buffer takes the physical size, the page's style stands.
    assert_eq!(adopted.width, 600);
    assert_eq!(adopted.height, 300);
    assert_eq!(adopted.style, style);
}

#[test]
fn page_declared_style_height_is_kept() {
    let style = CanvasStyle {
        width: None,
        height: Some(90),
    };
    let canvas = CanvasHandle::new(300, 150, style);
    let adopted = apply_negotiated_size(
        canvas,
        LogicalSize::new(300, 150),
        PhysicalSize::new(450, 225),
    );
    assert_eq!(adopted.width, 450);
    assert_eq!(adopted.height, 225);
    assert_eq!(adopted.style, style);
}

#[test]
fn undeclared_style_takes_logical_size() {
    let canvas = CanvasHandle::new(300, 150, CanvasStyle::unset());
    let adopted = apply_negotiated_size(
        canvas,
        LogicalSize::new(300, 150),
        PhysicalSize::new(600, 300),
    );
    assert_eq!(adopted.width, 600);
    assert_eq!(adopted.height, 300);
    assert_eq!(
        adopted.style,
        CanvasStyle {
            width: Some(300),
            height: Some(150),
        }
    );
}

#[test]
fn reapplying_adoption_changes_nothing() {
    let canvas = CanvasHandle::new(300, 150, CanvasStyle::unset());
    let logical = LogicalSize::new(300, 150);
    let physical = PhysicalSize::new(600, 300);
    let once = apply_negotiated_size(canvas, logical, physical);
    let twice = apply_negotiated_size(once, logical, physical);
    assert_eq!(once, twice);
}
