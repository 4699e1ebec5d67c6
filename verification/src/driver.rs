//! The event loop driver: which context operation each window event leads to,
//! and when the loop ends.

use vstd::prelude::*;
use crate::context::{ContextModel, GraphicsContext};
use crate::frame::FramePlan;
use crate::geometry::Size;
use crate::gpu::SurfaceConfig;

verus! {

/// What the window reports.
#[derive(Clone, Copy, Debug, PartialEq, Eq, Structural)]
pub enum WindowEvent {
    /// The window has a new physical size.
    Resized(Size),
    /// The window wants its contents drawn.
    RedrawRequested,
    /// The user asked to close the window.
    CloseRequested,
    /// Anything else.
    Other,
}

/// Whether the loop is still taking events.
#[derive(Clone, Copy, Debug, PartialEq, Eq, Structural)]
pub enum DriverState {
    Running,
    Terminated,
}

/// What the program does after an event before it waits for the next one.
#[derive(Clone, Copy, Debug, PartialEq, Eq)]
pub enum DriverAction {
    /// Nothing.
    Wait,
    /// Apply this configuration to the surface.
    Reconfigure(SurfaceConfig),
    /// Render and present this frame.
    Render(FramePlan),
    /// Leave the event loop.
    Exit,
}

impl WindowEvent {
    /// An event the driver can act on: a resize to an empty size cannot be
    /// followed, because no surface can be configured to it.
    pub open spec fn admissible(self) -> bool {
        self matches WindowEvent::Resized(size) ==> size.non_empty()
    }

    /// Decides `admissible` at run time.
    pub fn is_admissible(&self) -> (b: bool)
        ensures
            b == self.admissible(),
    {
        match self {
            WindowEvent::Resized(size) => size.is_non_empty(),
            _ => true,
        }
    }
}

/// All events of a sequence are admissible.
pub open spec fn all_admissible(events: Seq<WindowEvent>) -> bool {
    forall|i: int| 0 <= i < events.len() ==> (#[trigger] events[i]).admissible()
}

/// The driver as a plain value that contracts speak of.
#[derive(Clone, Copy, Debug, PartialEq, Eq)]
pub struct DriverModel {
    pub state: DriverState,
    pub context: ContextModel,
}

impl DriverModel {
    /// The driver right after start-up.
    pub open spec fn started(context: ContextModel) -> DriverModel {
        DriverModel { state: DriverState::Running, context }
    }

    /// One event: the driver afterwards, and what the program is to do. A
    /// terminated driver takes no event: it stays as it is and only repeats
    /// that the loop is to be left.
    pub open spec fn step(self, event: WindowEvent) -> (DriverModel, DriverAction) {
        match self.state {
            DriverState::Terminated => (self, DriverAction::Exit),
            DriverState::Running => match event {
                WindowEvent::Resized(size) => {
                    let context = self.context.reconfigured(size);
                    (
                        DriverModel { state: DriverState::Running, context },
                        DriverAction::Reconfigure(context.config),
                    )
                },
                WindowEvent::RedrawRequested => (self, DriverAction::Render(self.context.frame())),
                WindowEvent::CloseRequested => (
                    DriverModel { state: DriverState::Terminated, context: self.context },
                    DriverAction::Exit,
                ),
                WindowEvent::Other => (self, DriverAction::Wait),
            },
        }
    }

    /// A queue of events, taken one at a time in the order of arrival until
    /// the queue is empty or the driver has terminated: the driver afterwards,
    /// and one action for each event that was taken.
    pub open spec fn run(self, events: Seq<WindowEvent>) -> (DriverModel, Seq<DriverAction>)
        decreases events.len(),
    {
        if events.len() == 0 || self.state == DriverState::Terminated {
            (self, Seq::empty())
        } else {
            let (next, action) = self.step(events[0]);
            let (last, actions) = next.run(events.skip(1));
            (last, seq![action] + actions)
        }
    }
}

/// Owns the graphics context and maps window events to operations on it.
#[derive(Debug)]
pub struct EventLoopDriver {
    state: DriverState,
    context: GraphicsContext,
}

impl View for EventLoopDriver {
    type V = DriverModel;

    closed spec fn view(&self) -> DriverModel {
        DriverModel { state: self.state, context: self.context@ }
    }
}

impl EventLoopDriver {
    /// Takes over a context that start-up has built. The driver starts out
    /// running.
    pub fn new(context: GraphicsContext) -> (driver: EventLoopDriver)
        ensures
            driver@ == DriverModel::started(context@),
    {
        EventLoopDriver { state: DriverState::Running, context }
    }

    /// Whether the driver still takes events.
    pub fn is_running(&self) -> (running: bool)
        ensures
            running == (self@.state == DriverState::Running),
    {
        match self.state {
            DriverState::Running => true,
            DriverState::Terminated => false,
        }
    }

    /// The driver's state.
    pub fn state(&self) -> (state: DriverState)
        ensures
            state == self@.state,
    {
        self.state
    }

    /// The context that the driver owns.
    pub fn context(&self) -> (context: &GraphicsContext)
        ensures
            context@ == self@.context,
    {
        &self.context
    }

    /// Handles one event. A resize stores the new size in the context and
    /// hands out the configuration to apply; a redraw request plans a frame at
    /// the size the context has then; a close request terminates the driver;
    /// every other event changes nothing. Once terminated the driver handles
    /// nothing any more.
    pub fn handle_event(&mut self, event: WindowEvent) -> (action: DriverAction)
        requires
            old(self)@.state == DriverState::Running ==> event.admissible(),
        ensures
            final(self)@ == old(self)@.step(event).0,
            action == old(self)@.step(event).1,
    {
        match self.state {
            DriverState::Terminated => DriverAction::Exit,
            DriverState::Running => match event {
                WindowEvent::Resized(size) => {
                    self.context.reconfigure(size);
                    DriverAction::Reconfigure(self.context.surface_config())
                },
                WindowEvent::RedrawRequested => DriverAction::Render(self.context.render_frame()),
                WindowEvent::CloseRequested => {
                    self.state = DriverState::Terminated;
                    DriverAction::Exit
                },
                WindowEvent::Other => DriverAction::Wait,
            },
        }
    }

    /// Handles a queue of events in the order of arrival and stops at the
    /// first close request: what follows it in the queue is not looked at.
    pub fn handle_events(&mut self, events: &Vec<WindowEvent>) -> (actions: Vec<DriverAction>)
        requires
            all_admissible(events@),
        ensures
            final(self)@ == old(self)@.run(events@).0,
            actions@ == old(self)@.run(events@).1,
    {
        let mut actions: Vec<DriverAction> = Vec::new();
        let mut i: usize = 0;
        assert(events@.skip(0) =~= events@);
        while i < events.len() && self.is_running()
            invariant
                i <= events.len(),
                all_admissible(events@),
                old(self)@.run(events@).0 == self@.run(events@.skip(i as int)).0,
                old(self)@.run(events@).1 == actions@ + self@.run(events@.skip(i as int)).1,
            decreases events.len() - i,
        {
            assert(events@.skip(i as int).skip(1) =~= events@.skip(i + 1));
            let action = self.handle_event(events[i]);
            actions.push(action);
            i += 1;
        }
        actions
    }
}

/// A queue of `n` redraw requests.
pub open spec fn redraws(n: nat) -> Seq<WindowEvent> {
    Seq::new(n, |i: int| WindowEvent::RedrawRequested)
}

/// The size that the window has after a queue of events, if it had `initial`
/// before: each resize replaces the size, every other event leaves it.
pub open spec fn window_size_after(initial: Size, events: Seq<WindowEvent>) -> Size
    decreases events.len(),
{
    if events.len() == 0 {
        initial
    } else {
        match events[0] {
            WindowEvent::Resized(size) => window_size_after(size, events.skip(1)),
            _ => window_size_after(initial, events.skip(1)),
        }
    }
}

/// The latest resize decides the window's size, whatever came before it, and
/// an event that is no resize leaves the size as it was.
pub proof fn law_latest_resize_wins(initial: Size, events: Seq<WindowEvent>, last: WindowEvent)
    ensures
        last matches WindowEvent::Resized(size) ==> window_size_after(initial, events.push(last))
            == size,
        !(last is Resized) ==> window_size_after(initial, events.push(last)) == window_size_after(
            initial,
            events,
        ),
    decreases events.len(),
{
    let all = events.push(last);
    if events.len() == 0 {
        match last {
            WindowEvent::Resized(size) => {
                assert(window_size_after(size, all.skip(1)) == size);
            },
            _ => {
                assert(window_size_after(initial, all.skip(1)) == initial);
            },
        }
    } else {
        assert(all.skip(1) =~= events.skip(1).push(last));
        match events[0] {
            WindowEvent::Resized(size) => law_latest_resize_wins(size, events.skip(1), last),
            _ => law_latest_resize_wins(initial, events.skip(1), last),
        }
    }
}

/// No close request is among the events.
pub open spec fn none_closes(events: Seq<WindowEvent>) -> bool {
    forall|i: int| 0 <= i < events.len() ==> !(#[trigger] events[i] is CloseRequested)
}

/// A close request terminates a running driver whenever it arrives, and
/// nothing that is queued behind it is handled: the queue may as well end
/// with the close request.
pub proof fn law_close_ends_the_loop(
    driver: DriverModel,
    before: Seq<WindowEvent>,
    after: Seq<WindowEvent>,
)
    ensures
        driver.state == DriverState::Running ==> driver.step(WindowEvent::CloseRequested) == (
            DriverModel { state: DriverState::Terminated, context: driver.context },
            DriverAction::Exit,
        ),
        driver.run(before.push(WindowEvent::CloseRequested)).0.state == DriverState::Terminated,
        driver.run(before.push(WindowEvent::CloseRequested) + after) == driver.run(
            before.push(WindowEvent::CloseRequested),
        ),
    decreases before.len(),
{
    let closing = before.push(WindowEvent::CloseRequested);
    let all = closing + after;
    if driver.state == DriverState::Running {
        let next = driver.step(all[0]).0;
        if before.len() == 0 {
            assert(next.run(all.skip(1)) == (next, Seq::<DriverAction>::empty()));
            assert(next.run(closing.skip(1)) == (next, Seq::<DriverAction>::empty()));
        } else {
            let shorter = before.skip(1);
            assert(closing.skip(1) =~= shorter.push(WindowEvent::CloseRequested));
            assert(all.skip(1) =~= shorter.push(WindowEvent::CloseRequested) + after);
            law_close_ends_the_loop(next, shorter, after);
        }
    }
}

/// A terminated driver handles nothing: whatever the event, it stays as it is
/// and changes nothing of its context.
pub proof fn law_terminated_is_final(driver: DriverModel, event: WindowEvent, events: Seq<WindowEvent>)
    requires
        driver.state == DriverState::Terminated,
    ensures
        driver.step(event) == (driver, DriverAction::Exit),
        driver.run(events) == (driver, Seq::<DriverAction>::empty()),
{
}

/// Redraw requests with no resize between them each get a frame of their
/// own: `n` requests give `n` render actions, every one the full frame at the
/// size the surface has, and the driver is left as it was.
pub proof fn law_every_redraw_renders(driver: DriverModel, n: nat)
    requires
        driver.state == DriverState::Running,
    ensures
        driver.run(redraws(n)).0 == driver,
        driver.run(redraws(n)).1 == Seq::new(
            n,
            |i: int| DriverAction::Render(FramePlan::triangle(driver.context.config.size)),
        ),
    decreases n,
{
    if n > 0 {
        let shorter = (n - 1) as nat;
        assert(redraws(n).skip(1) =~= redraws(shorter));
        law_every_redraw_renders(driver, shorter);
    }
}

/// A resize that is followed at once by a redraw request is rendered at the
/// new size: first the surface is configured to it, then the frame is planned
/// with it.
pub proof fn law_resize_then_redraw(driver: DriverModel, size: Size)
    requires
        driver.state == DriverState::Running,
        size.non_empty(),
    ensures
        driver.run(seq![WindowEvent::Resized(size), WindowEvent::RedrawRequested]).1 == seq![
            DriverAction::Reconfigure(driver.context.config.resized(size)),
            DriverAction::Render(FramePlan::triangle(size)),
        ],
        driver.run(seq![WindowEvent::Resized(size), WindowEvent::RedrawRequested]).0
            == (DriverModel {
            state: DriverState::Running,
            context: driver.context.reconfigured(size),
        }),
{
    let events = seq![WindowEvent::Resized(size), WindowEvent::RedrawRequested];
    let resized = driver.step(events[0]).0;
    let second = events.skip(1);
    let drawn = resized.step(second[0]).0;
    assert(drawn.run(second.skip(1)) == (drawn, Seq::<DriverAction>::empty()));
    assert(resized.run(second).1 =~= seq![DriverAction::Render(FramePlan::triangle(size))]);
}

/// While no close request arrives, every event is answered, and the surface
/// follows the window: after any queue of events the surface is configured to
/// the size of the latest resize, and a redraw request that comes next is
/// rendered at that size.
pub proof fn law_surface_follows_window(driver: DriverModel, events: Seq<WindowEvent>)
    requires
        driver.state == DriverState::Running,
        none_closes(events),
    ensures
        driver.run(events).0.state == DriverState::Running,
        driver.run(events).1.len() == events.len(),
        driver.run(events).0.context.config.size == window_size_after(
            driver.context.config.size,
            events,
        ),
        driver.run(events.push(WindowEvent::RedrawRequested)).1.last() == DriverAction::Render(
            FramePlan::triangle(window_size_after(driver.context.config.size, events)),
        ),
    decreases events.len(),
{
    let more = events.push(WindowEvent::RedrawRequested);
    if events.len() == 0 {
        let drawn = driver.step(more[0]).0;
        assert(drawn.run(more.skip(1)) == (drawn, Seq::<DriverAction>::empty()));
    } else {
        let next = driver.step(events[0]).0;
        let rest = events.skip(1);
        law_surface_follows_window(next, rest);
        assert(more.skip(1) =~= rest.push(WindowEvent::RedrawRequested));
    }
}

/// Whatever events arrive, the pipeline and the surface's format stay those
/// of start-up. If the context was coherent and no resize was to an empty
/// size, it is coherent afterwards, so the pipeline's colour target is still
/// the surface's format.
pub proof fn law_format_survives_events(driver: DriverModel, events: Seq<WindowEvent>)
    ensures
        driver.run(events).0.context.pipeline == driver.context.pipeline,
        driver.run(events).0.context.config.format == driver.context.config.format,
        driver.context.coherent() && all_admissible(events) ==> {
            &&& driver.run(events).0.context.coherent()
            &&& driver.run(events).0.context.pipeline.target_format == driver.run(
                events,
            ).0.context.config.format
        },
    decreases events.len(),
{
    if events.len() > 0 && driver.state == DriverState::Running {
        let next = driver.step(events[0]).0;
        let rest = events.skip(1);
        law_format_survives_events(next, rest);
    }
}

} // verus!
