use overlay_render::error::FatalError;
use overlay_render::geometry::{Position, Size};
use overlay_render::platform::Platform;
use overlay_render::window::{
    centered_x, plan_window, WindowPlan, TOP_MARGIN, WINDOW_HEIGHT, WINDOW_WIDTH,
};

fn display(width: u32, height: u32) -> Option<Size> {
    Some(Size { width, height })
}

#[test]
fn window_is_centred_on_a_full_hd_display() {
    let plan = plan_window(Platform::Linux, display(1920, 1080)).unwrap();
    assert_eq!(plan.position, Position { x: 448, y: 8 });
    assert_eq!(plan.size, Size { width: 1024, height: 128 });
}

#[test]
fn window_plan_is_complete_on_linux() {
    let plan = plan_window(Platform::Linux, display(2560, 1440)).unwrap();
    assert_eq!(
        plan,
        WindowPlan {
            size: Size { width: 1024, height: 128 },
            position: Position { x: 768, y: 8 },
            transparent: true,
            borderless: true,
            always_on_top: true,
            tool_window: true,
        }
    );
}

#[test]
fn tool_window_hint_is_for_linux_only() {
    let windows = plan_window(Platform::Windows, display(1920, 1080)).unwrap();
    let other = plan_window(Platform::Other, display(1920, 1080)).unwrap();
    assert!(!windows.tool_window);
    assert!(!other.tool_window);
    assert!(windows.transparent && windows.borderless && windows.always_on_top);
    assert_eq!(windows.position, other.position);
}

#[test]
fn window_constants() {
    assert_eq!(WINDOW_WIDTH, 1024);
    assert_eq!(WINDOW_HEIGHT, 128);
    assert_eq!(TOP_MARGIN, 8);
}

#[test]
fn centring_rounds_down() {
    assert_eq!(centered_x(1025, 1024), Ok(0));
    assert_eq!(centered_x(1026, 1024), Ok(1));
    assert_eq!(centered_x(1027, 1024), Ok(1));
    assert_eq!(centered_x(1921, 1024), Ok(448));
}

#[test]
fn display_as_wide_as_the_window_puts_it_at_the_left_edge() {
    assert_eq!(centered_x(1024, 1024), Ok(0));
    let plan = plan_window(Platform::Windows, display(1024, 768)).unwrap();
    assert_eq!(plan.position, Position { x: 0, y: 8 });
}

#[test]
fn widest_display_still_fits_the_position() {
    assert_eq!(centered_x(u32::MAX, 0), Ok(i32::MAX));
    assert_eq!(centered_x(u32::MAX, 1024), Ok(2147483135));
    let plan = plan_window(Platform::Other, display(u32::MAX, 1)).unwrap();
    assert_eq!(plan.position.x, 2147483135);
}

#[test]
fn narrow_display_is_refused() {
    assert_eq!(centered_x(1023, 1024), Err(FatalError::PlacementOutOfRange));
    assert_eq!(centered_x(0, 1), Err(FatalError::PlacementOutOfRange));
    assert_eq!(
        plan_window(Platform::Linux, display(1023, 4000)),
        Err(FatalError::PlacementOutOfRange)
    );
    assert_eq!(
        plan_window(Platform::Windows, display(800, 600)),
        Err(FatalError::PlacementOutOfRange)
    );
    assert_eq!(plan_window(Platform::Other, display(0, 0)), Err(FatalError::PlacementOutOfRange));
}

#[test]
fn missing_primary_display_is_refused() {
    assert_eq!(plan_window(Platform::Linux, None), Err(FatalError::NoPrimaryMonitor));
    assert_eq!(plan_window(Platform::Windows, None), Err(FatalError::NoPrimaryMonitor));
}

#[test]
fn display_height_plays_no_part() {
    let low = plan_window(Platform::Linux, display(1920, 1)).unwrap();
    let high = plan_window(Platform::Linux, display(1920, 100_000)).unwrap();
    assert_eq!(low, high);
}

#[test]
fn every_fatal_error_has_its_message() {
    assert_eq!(FatalError::NoPrimaryMonitor.message(), "primary monitor is not found");
    assert_eq!(
        FatalError::PlacementOutOfRange.message(),
        "out of range integral type conversion attempted"
    );
    assert_eq!(FatalError::AdapterNotFound.message(), "Failed to find an appropriate adapter");
    assert_eq!(FatalError::DeviceRequestFailed.message(), "Failed to create device");
    assert_eq!(
        FatalError::SurfaceFormatUnavailable.message(),
        "surface is incompatible with the adapter"
    );
    assert_eq!(
        FatalError::FrameAcquisitionFailed.message(),
        "Failed to acquire next swap chain texture"
    );
}

#[test]
fn size_emptiness() {
    assert!(Size { width: 1, height: 1 }.is_non_empty());
    assert!(Size { width: 1024, height: 128 }.is_non_empty());
    assert!(!Size { width: 0, height: 128 }.is_non_empty());
    assert!(!Size { width: 1024, height: 0 }.is_non_empty());
    assert!(!Size { width: 0, height: 0 }.is_non_empty());
}
