use overlay_render::context::GraphicsContext;
use overlay_render::driver::{DriverAction, DriverState, EventLoopDriver, WindowEvent};
use overlay_render::frame::{ClearColor, FramePlan, LoadOp};
use overlay_render::geometry::{Size, Span};
use overlay_render::gpu::{PresentMode, SurfaceConfig, TextureUsage};
use wgpu::TextureFormat;

const WINDOW: Size = Size { width: 1024, height: 128 };
const FORMAT: TextureFormat = TextureFormat::Bgra8UnormSrgb;

fn driver() -> EventLoopDriver {
    EventLoopDriver::new(GraphicsContext::initialize(FORMAT, WINDOW))
}

fn triangle(extent: Size) -> FramePlan {
    FramePlan {
        extent,
        load: LoadOp::Clear(ClearColor::Transparent),
        store: true,
        vertices: Span { start: 0, end: 3 },
        instances: Span { start: 0, end: 1 },
    }
}

fn config(size: Size) -> SurfaceConfig {
    SurfaceConfig {
        usage: TextureUsage::RenderAttachment,
        format: FORMAT,
        size,
        present_mode: PresentMode::Mailbox,
    }
}

#[test]
fn driver_starts_out_running() {
    let d = driver();
    assert!(d.is_running());
    assert_eq!(d.state(), DriverState::Running);
    assert_eq!(d.context().surface_config(), config(WINDOW));
}

#[test]
fn resize_reconfigures_and_keeps_running() {
    let mut d = driver();
    let size = Size { width: 1280, height: 160 };
    assert_eq!(d.handle_event(WindowEvent::Resized(size)), DriverAction::Reconfigure(config(size)));
    assert_eq!(d.state(), DriverState::Running);
    assert_eq!(d.context().surface_config().size, size);
}

#[test]
fn redraw_renders_and_keeps_running() {
    let mut d = driver();
    assert_eq!(
        d.handle_event(WindowEvent::RedrawRequested),
        DriverAction::Render(triangle(WINDOW))
    );
    assert_eq!(d.state(), DriverState::Running);
    assert_eq!(d.context().surface_config(), config(WINDOW));
}

#[test]
fn close_terminates() {
    let mut d = driver();
    assert_eq!(d.handle_event(WindowEvent::CloseRequested), DriverAction::Exit);
    assert_eq!(d.state(), DriverState::Terminated);
    assert!(!d.is_running());
}

#[test]
fn other_events_are_ignored() {
    let mut d = driver();
    assert_eq!(d.handle_event(WindowEvent::Other), DriverAction::Wait);
    assert_eq!(d.state(), DriverState::Running);
    assert_eq!(d.context().surface_config(), config(WINDOW));
}

#[test]
fn nothing_is_handled_after_close() {
    let mut d = driver();
    d.handle_event(WindowEvent::Resized(Size { width: 500, height: 50 }));
    d.handle_event(WindowEvent::CloseRequested);
    let events = [
        WindowEvent::Resized(Size { width: 9, height: 9 }),
        WindowEvent::Resized(Size { width: 0, height: 0 }),
        WindowEvent::RedrawRequested,
        WindowEvent::Other,
        WindowEvent::CloseRequested,
    ];
    for event in events {
        assert_eq!(d.handle_event(event), DriverAction::Exit);
        assert_eq!(d.state(), DriverState::Terminated);
        assert_eq!(d.context().surface_config(), config(Size { width: 500, height: 50 }));
    }
}

#[test]
fn close_ends_the_queue_wherever_it_stands() {
    let size = Size { width: 640, height: 64 };
    let head = vec![WindowEvent::Other, WindowEvent::Resized(size), WindowEvent::RedrawRequested];
    for cut in 0..=head.len() {
        let mut events: Vec<WindowEvent> = head[..cut].to_vec();
        events.push(WindowEvent::CloseRequested);
        let mut short = driver();
        let short_actions = short.handle_events(&events);
        events.push(WindowEvent::RedrawRequested);
        events.push(WindowEvent::Resized(Size { width: 1, height: 1 }));
        let mut long = driver();
        let long_actions = long.handle_events(&events);
        assert_eq!(short_actions, long_actions);
        assert_eq!(short_actions.len(), cut + 1);
        assert_eq!(short_actions.last(), Some(&DriverAction::Exit));
        assert_eq!(long.state(), DriverState::Terminated);
        assert_eq!(long.context().surface_config(), short.context().surface_config());
    }
}

#[test]
fn resize_then_redraw_renders_at_the_new_size() {
    let mut d = driver();
    let size = Size { width: 2000, height: 250 };
    let actions =
        d.handle_events(&vec![WindowEvent::Resized(size), WindowEvent::RedrawRequested]);
    assert_eq!(
        actions,
        vec![DriverAction::Reconfigure(config(size)), DriverAction::Render(triangle(size))]
    );
}

#[test]
fn redraw_uses_the_latest_of_several_resizes() {
    let mut d = driver();
    let actions = d.handle_events(&vec![
        WindowEvent::Resized(Size { width: 10, height: 20 }),
        WindowEvent::Other,
        WindowEvent::Resized(Size { width: 30, height: 40 }),
        WindowEvent::Other,
        WindowEvent::RedrawRequested,
    ]);
    assert_eq!(actions.len(), 5);
    assert_eq!(actions[4], DriverAction::Render(triangle(Size { width: 30, height: 40 })));
    assert_eq!(d.context().surface_config().size, Size { width: 30, height: 40 });
}

#[test]
fn every_redraw_gets_a_frame_of_its_own() {
    for n in [0usize, 1, 2, 7, 100] {
        let mut d = driver();
        let actions = d.handle_events(&vec![WindowEvent::RedrawRequested; n]);
        assert_eq!(actions, vec![DriverAction::Render(triangle(WINDOW)); n]);
        assert!(d.is_running());
        assert_eq!(d.context().surface_config(), config(WINDOW));
        let presents: usize = actions
            .iter()
            .map(|a| match a {
                DriverAction::Render(plan) => plan
                    .commands()
                    .iter()
                    .filter(|c| matches!(c, overlay_render::frame::GpuCommand::Present))
                    .count(),
                _ => 0,
            })
            .sum();
        assert_eq!(presents, n);
    }
}

#[test]
fn same_resize_twice_leaves_the_same_state_as_once() {
    let size = Size { width: 77, height: 11 };
    let mut once = driver();
    once.handle_events(&vec![WindowEvent::Resized(size)]);
    let mut twice = driver();
    let actions = twice.handle_events(&vec![WindowEvent::Resized(size); 2]);
    assert_eq!(actions, vec![DriverAction::Reconfigure(config(size)); 2]);
    assert_eq!(once.context().surface_config(), twice.context().surface_config());
    assert_eq!(once.context().pipeline(), twice.context().pipeline());
    assert_eq!(once.state(), twice.state());
}

#[test]
fn format_survives_any_run_of_events() {
    let mut d = driver();
    d.handle_events(&vec![
        WindowEvent::Resized(Size { width: 1, height: 2 }),
        WindowEvent::RedrawRequested,
        WindowEvent::Other,
        WindowEvent::Resized(Size { width: 3, height: 4 }),
        WindowEvent::RedrawRequested,
        WindowEvent::CloseRequested,
    ]);
    assert_eq!(d.context().pipeline().target_format, FORMAT);
    assert_eq!(d.context().surface_config().format, FORMAT);
    assert_eq!(d.context().surface_config().size, Size { width: 3, height: 4 });
}

#[test]
fn empty_queue_changes_nothing() {
    let mut d = driver();
    assert_eq!(d.handle_events(&Vec::new()), Vec::new());
    assert!(d.is_running());
}

#[test]
fn admissible_events() {
    assert!(WindowEvent::RedrawRequested.is_admissible());
    assert!(WindowEvent::CloseRequested.is_admissible());
    assert!(WindowEvent::Other.is_admissible());
    assert!(WindowEvent::Resized(Size { width: 1, height: 1 }).is_admissible());
    assert!(!WindowEvent::Resized(Size { width: 0, height: 1 }).is_admissible());
    assert!(!WindowEvent::Resized(Size { width: 1, height: 0 }).is_admissible());
}
