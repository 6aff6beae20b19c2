//! What the platform reports to the event loop: the kind of each event, and
//! the input state of a tick as the input helper tracked it.

use crate::surface::Size;
use vstd::prelude::*;
use winit::event::Event;
use winit::event::VirtualKeyCode;
use winit_input_helper::WinitInputHelper;

verus! {

/// The input tracker of `winit_input_helper`. It is fed every platform event
/// and answers questions about the tick that the events belong to. Its state
/// is not visible here.
#[verifier::external_type_specification]
#[verifier::external_body]
pub struct ExWinitInputHelper(WinitInputHelper);

/// A platform event of `winit`. It is carried through and asked for its kind,
/// nothing else.
#[verifier::external_type_specification]
#[verifier::external_body]
#[verifier::reject_recursive_types(T)]
pub struct ExEvent<'a, T: 'static>(Event<'a, T>);

/// The key names of `winit`, with their variants, so that the cancel key can
/// be named.
#[verifier::external_type_specification]
pub struct ExVirtualKeyCode(VirtualKeyCode);

/// What an event asks of the loop.
#[derive(Clone, Copy, Debug, PartialEq, Eq)]
pub enum EventKind {
    /// The window wants its content drawn.
    RedrawRequested,
    /// Anything else: input, window changes, the loop's own bookkeeping.
    Other,
}

/// The input of one tick, read after the tick's events were tracked. It is
/// made anew for every tick.
#[derive(Clone, Copy, Debug, PartialEq, Eq)]
pub struct InputState {
    /// Whether the event just tracked closed a tick. Only then do the other
    /// fields count.
    pub tick_complete: bool,
    /// The cancel key went down during the tick.
    pub cancel_pressed: bool,
    /// The window was asked to close, or is gone.
    pub quit_requested: bool,
    /// The size the window was brought to during the tick, if it was resized.
    pub resized: Option<Size>,
}

impl EventKind {
    /// The kind of an event, from whether it is a request to redraw.
    pub fn of(redraw_requested: bool) -> (kind: EventKind)
        ensures
            kind == (if redraw_requested {
                EventKind::RedrawRequested
            } else {
                EventKind::Other
            }),
    {
        if redraw_requested {
            EventKind::RedrawRequested
        } else {
            EventKind::Other
        }
    }
}

impl InputState {
    /// The state while a tick is still open: nothing of it counts yet.
    pub open spec fn open_tick() -> InputState {
        InputState {
            tick_complete: false,
            cancel_pressed: false,
            quit_requested: false,
            resized: None,
        }
    }

    /// The input state of a closed tick from the input helper's four answers:
    /// the cancel key, the close request, the window's destruction, and the
    /// new size as width and height.
    pub fn gather(
        cancel_pressed: bool,
        close_requested: bool,
        destroyed: bool,
        resized: Option<(u32, u32)>,
    ) -> (state: InputState)
        ensures
            state.tick_complete,
            state.cancel_pressed == cancel_pressed,
            state.quit_requested == (close_requested || destroyed),
            state.resized == match resized {
                Some((width, height)) => Some(Size { width, height }),
                None => None,
            },
    {
        InputState {
            tick_complete: true,
            cancel_pressed,
            quit_requested: close_requested || destroyed,
            resized: match resized {
                Some((width, height)) => Some(Size { width, height }),
                None => None,
            },
        }
    }
}

/// The key that ends the viewer.
pub fn cancel_key() -> (key: VirtualKeyCode)
    ensures
        key == VirtualKeyCode::Escape,
{
    VirtualKeyCode::Escape
}

/// Tells `Event::RedrawRequested` from every other variant of `Event`. Nothing
/// is claimed of the answer.
#[verifier::external_body]
fn redraw_requested(event: &Event<'_, ()>) -> (redraw: bool) {
    match event {
        Event::RedrawRequested(_) => true,
        _ => false,
    }
}

/// `WinitInputHelper::key_pressed`: whether the key went from up to down
/// during the tick. The answer depends on the events that the helper was fed,
/// so nothing is claimed of it.
#[verifier::external_body]
fn key_pressed(input: &WinitInputHelper, key: VirtualKeyCode) -> (pressed: bool) {
    input.key_pressed(key)
}

/// `WinitInputHelper::close_requested`: whether the window was asked to close
/// during the tick. Nothing is claimed of the answer.
#[verifier::external_body]
fn close_requested(input: &WinitInputHelper) -> (requested: bool) {
    input.close_requested()
}

/// `WinitInputHelper::destroyed`: whether the window has been destroyed.
/// Nothing is claimed of the answer.
#[verifier::external_body]
fn destroyed(input: &WinitInputHelper) -> (gone: bool) {
    input.destroyed()
}

/// `WinitInputHelper::window_resized`: the window's size if it was resized
/// during the tick, as width and height. Nothing is claimed of the answer.
#[verifier::external_body]
fn window_resized(input: &WinitInputHelper) -> (size: Option<(u32, u32)>) {
    input.window_resized().map(|size| (size.width, size.height))
}

/// The kind of a platform event.
pub fn classify(event: &Event<'_, ()>) -> (kind: EventKind) {
    EventKind::of(redraw_requested(event))
}

/// Reads the input state from the helper after it tracked an event.
/// `tick_complete` is what the helper said of that event. While the tick is
/// open the helper is not asked; once it is closed, the state is gathered from
/// the helper's answers, whatever they are.
pub fn poll(input: &WinitInputHelper, tick_complete: bool) -> (state: InputState)
    ensures
        state.tick_complete == tick_complete,
        !tick_complete ==> state == InputState::open_tick(),
{
    if tick_complete {
        let cancel_pressed = key_pressed(input, cancel_key());
        let close = close_requested(input);
        let gone = destroyed(input);
        let resized = window_resized(input);
        InputState::gather(cancel_pressed, close, gone, resized)
    } else {
        InputState {
            tick_complete: false,
            cancel_pressed: false,
            quit_requested: false,
            resized: None,
        }
    }
}

} // verus!
