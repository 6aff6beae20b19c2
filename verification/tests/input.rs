use openexr_viewer::input::cancel_key;
use openexr_viewer::input::classify;
use openexr_viewer::input::poll;
use openexr_viewer::input::EventKind;
use openexr_viewer::input::InputState;
use openexr_viewer::surface::Size;
use winit::dpi::PhysicalSize;
use winit::event::Event;
use winit::event::StartCause;
use winit::event::VirtualKeyCode;
use winit::event::WindowEvent;
use winit::window::WindowId;
use winit_input_helper::WinitInputHelper;

fn window_event(event: WindowEvent<'static>) -> Event<'static, ()> {
    Event::WindowEvent { window_id: WindowId::from(1u64), event }
}

#[test]
fn event_kind_of_a_redraw_request() {
    assert_eq!(EventKind::of(true), EventKind::RedrawRequested);
    assert_eq!(EventKind::of(false), EventKind::Other);
}

#[test]
fn classify_tells_the_redraw_request_apart() {
    let redraw: Event<()> = Event::RedrawRequested(WindowId::from(1u64));
    assert_eq!(classify(&redraw), EventKind::RedrawRequested);
}

#[test]
fn classify_takes_everything_else_as_other() {
    let new_events: Event<()> = Event::NewEvents(StartCause::Init);
    let cleared: Event<()> = Event::MainEventsCleared;
    let redraws_cleared: Event<()> = Event::RedrawEventsCleared;
    let close = window_event(WindowEvent::CloseRequested);
    assert_eq!(classify(&new_events), EventKind::Other);
    assert_eq!(classify(&cleared), EventKind::Other);
    assert_eq!(classify(&redraws_cleared), EventKind::Other);
    assert_eq!(classify(&close), EventKind::Other);
}

#[test]
fn cancel_key_is_escape() {
    assert_eq!(cancel_key(), VirtualKeyCode::Escape);
}

#[test]
fn gather_keeps_the_answers() {
    assert_eq!(
        InputState::gather(false, false, false, None),
        InputState {
            tick_complete: true,
            cancel_pressed: false,
            quit_requested: false,
            resized: None
        }
    );
    assert_eq!(
        InputState::gather(true, false, false, Some((1024, 768))),
        InputState {
            tick_complete: true,
            cancel_pressed: true,
            quit_requested: false,
            resized: Some(Size { width: 1024, height: 768 })
        }
    );
}

#[test]
fn gather_takes_close_and_destruction_as_quit() {
    assert!(InputState::gather(false, true, false, None).quit_requested);
    assert!(InputState::gather(false, false, true, None).quit_requested);
    assert!(InputState::gather(false, true, true, None).quit_requested);
    assert!(!InputState::gather(true, false, false, Some((0, 0))).quit_requested);
}

#[test]
fn poll_of_a_quiet_tick() {
    let mut input = WinitInputHelper::new();
    let cleared: Event<()> = Event::MainEventsCleared;
    let complete = input.update(&cleared);
    assert!(complete);
    assert_eq!(
        poll(&input, complete),
        InputState {
            tick_complete: true,
            cancel_pressed: false,
            quit_requested: false,
            resized: None
        }
    );
}

#[test]
fn poll_sees_a_close_request() {
    let mut input = WinitInputHelper::new();
    assert!(!input.update(&window_event(WindowEvent::CloseRequested)));
    let cleared: Event<()> = Event::MainEventsCleared;
    let complete = input.update(&cleared);
    let state = poll(&input, complete);
    assert!(state.tick_complete);
    assert!(state.quit_requested);
    assert!(!state.cancel_pressed);
    assert_eq!(state.resized, None);
}

#[test]
fn poll_sees_a_destroyed_window() {
    let mut input = WinitInputHelper::new();
    input.update(&window_event(WindowEvent::Destroyed));
    let state = poll(&input, true);
    assert!(state.quit_requested);
}

#[test]
fn poll_sees_the_new_size() {
    let mut input = WinitInputHelper::new();
    input.update(&window_event(WindowEvent::Resized(PhysicalSize::new(1024, 768))));
    let cleared: Event<()> = Event::MainEventsCleared;
    let complete = input.update(&cleared);
    let state = poll(&input, complete);
    assert_eq!(state.resized, Some(Size { width: 1024, height: 768 }));
    assert!(!state.quit_requested);
}

#[test]
fn poll_forgets_the_last_tick() {
    let mut input = WinitInputHelper::new();
    input.update(&window_event(WindowEvent::Resized(PhysicalSize::new(800, 600))));
    input.update(&window_event(WindowEvent::CloseRequested));
    let new_events: Event<()> = Event::NewEvents(StartCause::Poll);
    input.update(&new_events);
    let state = poll(&input, true);
    assert_eq!(state.resized, None);
    assert!(!state.quit_requested);
}

#[test]
fn poll_of_an_open_tick_asks_nothing() {
    let mut input = WinitInputHelper::new();
    let close = window_event(WindowEvent::CloseRequested);
    let complete = input.update(&close);
    assert!(!complete);
    assert_eq!(
        poll(&input, complete),
        InputState {
            tick_complete: false,
            cancel_pressed: false,
            quit_requested: false,
            resized: None
        }
    );
}
