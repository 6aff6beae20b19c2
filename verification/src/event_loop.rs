//! The event loop as a machine. It holds the surface manager and the action
//! that is under way. Its driver reports what happened, the loop decides what
//! is done next.

use crate::input::EventKind;
use crate::input::InputState;
use crate::surface::PresentStep;
use crate::surface::ResizeOutcome;
use crate::surface::Size;
use crate::surface::SurfaceManager;
use crate::surface::SurfaceModel;
use vstd::prelude::*;

verus! {

/// A failure at run time. Each one ends the loop: none is tried again.
#[derive(Clone, Copy, Debug, PartialEq, Eq)]
pub enum Fault {
    /// The surface could not take the frame, or cannot be had at the size of
    /// the window.
    Presentation,
    /// The overlay failed to prepare, to draw or to take an event.
    Overlay,
}

/// How the loop ended.
#[derive(Clone, Copy, Debug, PartialEq, Eq)]
pub enum ExitStatus {
    /// The user closed the window or pressed the cancel key.
    Success,
    /// A fault ended the loop.
    Failure(Fault),
}

/// The flag that says whether the loop goes on.
#[derive(Clone, Copy, Debug, PartialEq, Eq)]
pub enum ControlFlow {
    /// The loop goes on.
    Continue,
    /// The user asked to leave: the loop ends with success.
    ExitRequested,
    /// A fault ended the loop.
    FatalError,
}

/// What the loop asks its driver to do.
#[derive(Clone, Copy, Debug, PartialEq, Eq)]
pub enum Action {
    /// Wait for the platform's next event and report its kind.
    AwaitEvent,
    /// Let the overlay prepare its frame.
    PrepareOverlay,
    /// Carry out one step of the present.
    Present(PresentStep),
    /// Give the event to the overlay.
    CaptureInput,
    /// Track the event in the input state and report that state.
    UpdateInput,
    /// Bring the presentable surface to the size that the pixel buffer now has.
    ResizeSurface(Size),
    /// Ask the window for a redraw.
    RequestRedraw,
    /// Leave the loop.
    Exit(ExitStatus),
}

/// What the driver reports to the loop.
#[derive(Clone, Copy, Debug, PartialEq, Eq)]
pub enum Signal {
    /// The platform delivered an event of this kind.
    Event(EventKind),
    /// The action under way is done.
    Done,
    /// The action under way failed.
    Failed,
    /// The input state after the event was tracked.
    Input(InputState),
}

impl Fault {
    /// The text that tells the user what went wrong.
    pub open spec fn message_text(self) -> Seq<char> {
        match self {
            Fault::Presentation => "the frame could not be presented"@,
            Fault::Overlay => "the overlay failed"@,
        }
    }

    /// The text that tells the user what went wrong.
    pub fn message(&self) -> (text: &'static str)
        ensures
            text@ == self.message_text(),
    {
        match self {
            Fault::Presentation => "the frame could not be presented",
            Fault::Overlay => "the overlay failed",
        }
    }
}

impl ExitStatus {
    /// The status that the process ends with: zero for success, one for every
    /// fault.
    pub fn code(&self) -> (code: i32)
        ensures
            code == (if *self == ExitStatus::Success {
                0i32
            } else {
                1i32
            }),
    {
        match self {
            ExitStatus::Success => 0,
            ExitStatus::Failure(_) => 1,
        }
    }
}

impl Action {
    /// Whether the driver answers this action with `Done` or `Failed`.
    pub open spec fn completes(self) -> bool {
        match self {
            Action::AwaitEvent => false,
            Action::UpdateInput => false,
            Action::Exit(_) => false,
            _ => true,
        }
    }

    /// The action that follows this one once it is done.
    pub open spec fn successor(self) -> Action {
        match self {
            Action::PrepareOverlay => Action::Present(PresentStep::Blit),
            Action::Present(step) => match step.following() {
                Some(next) => Action::Present(next),
                None => Action::CaptureInput,
            },
            Action::CaptureInput => Action::UpdateInput,
            Action::ResizeSurface(_) => Action::RequestRedraw,
            Action::RequestRedraw => Action::AwaitEvent,
            other => other,
        }
    }

    /// The fault that the failure of this action is: the overlay's for what
    /// the overlay does, the surface's for the rest.
    pub open spec fn fault(self) -> Fault {
        match self {
            Action::PrepareOverlay => Fault::Overlay,
            Action::Present(PresentStep::DrawOverlay) => Fault::Overlay,
            Action::CaptureInput => Fault::Overlay,
            _ => Fault::Presentation,
        }
    }

    /// The flag that the loop shows while this action is under way.
    pub open spec fn flow(self) -> ControlFlow {
        match self {
            Action::Exit(ExitStatus::Success) => ControlFlow::ExitRequested,
            Action::Exit(ExitStatus::Failure(_)) => ControlFlow::FatalError,
            _ => ControlFlow::Continue,
        }
    }
}

/// The loop as its contracts see it: the surface and the action under way.
pub struct LoopModel {
    pub surface: SurfaceModel,
    pub pending: Action,
}

impl LoopModel {
    /// The pixel buffer has the length that the surface's size asks for, and
    /// a resize of the presentable surface that is under way is one to that
    /// size.
    pub open spec fn well_formed(self) -> bool {
        &&& self.surface.well_formed()
        &&& self.pending is ResizeSurface ==> self.pending->ResizeSurface_0 == self.surface.size
    }

    /// The same loop with another action under way.
    pub open spec fn with(self, pending: Action) -> LoopModel {
        LoopModel { surface: self.surface, pending }
    }

    /// The loop after the input state of an event came in.
    ///
    /// While the tick is open the loop waits for the next event. At the end
    /// of a tick a close request or the cancel key ends the loop. Otherwise a
    /// new window size goes to the surface manager, and a redraw is asked
    /// for; where the surface manager had to allocate, the presentable surface
    /// is resized first. A size whose buffer cannot be addressed is a
    /// presentation fault.
    pub open spec fn after_input(self, input: InputState) -> LoopModel {
        if !input.tick_complete {
            self.with(Action::AwaitEvent)
        } else if input.quit_requested || input.cancel_pressed {
            self.with(Action::Exit(ExitStatus::Success))
        } else {
            match input.resized {
                None => self.with(Action::RequestRedraw),
                Some(size) => if !size.fits() {
                    self.with(Action::Exit(ExitStatus::Failure(Fault::Presentation)))
                } else if size == self.surface.size {
                    self.with(Action::RequestRedraw)
                } else {
                    LoopModel {
                        surface: self.surface.resized(size),
                        pending: Action::ResizeSurface(size),
                    }
                },
            }
        }
    }

    /// The loop after one report of its driver. A report that the action under
    /// way does not wait for changes nothing.
    pub open spec fn step(self, signal: Signal) -> LoopModel {
        match signal {
            Signal::Event(kind) => if self.pending == Action::AwaitEvent {
                match kind {
                    EventKind::RedrawRequested => self.with(Action::PrepareOverlay),
                    EventKind::Other => self.with(Action::CaptureInput),
                }
            } else {
                self
            },
            Signal::Done => if self.pending.completes() {
                self.with(self.pending.successor())
            } else {
                self
            },
            Signal::Failed => if self.pending.completes() {
                self.with(Action::Exit(ExitStatus::Failure(self.pending.fault())))
            } else {
                self
            },
            Signal::Input(input) => if self.pending == Action::UpdateInput {
                self.after_input(input)
            } else {
                self
            },
        }
    }

    /// The loop after a sequence of reports, taken in order.
    pub open spec fn run(self, signals: Seq<Signal>) -> LoopModel
        decreases signals.len(),
    {
        if signals.len() == 0 {
            self
        } else {
            self.run(signals.drop_last()).step(signals.last())
        }
    }
}

/// The event loop: the surface manager it was given and the action under way.
pub struct EventLoop {
    surface: SurfaceManager,
    pending: Action,
}

impl View for EventLoop {
    type V = LoopModel;

    closed spec fn view(&self) -> LoopModel {
        LoopModel { surface: self.surface@, pending: self.pending }
    }
}

impl EventLoop {
    /// A loop over `surface` that waits for its first event.
    pub fn new(surface: SurfaceManager) -> (event_loop: EventLoop)
        ensures
            event_loop@ == (LoopModel { surface: surface@, pending: Action::AwaitEvent }),
    {
        EventLoop { surface, pending: Action::AwaitEvent }
    }

    /// Takes one report of the driver and returns the action to carry out
    /// next.
    pub fn step(&mut self, signal: Signal) -> (action: Action)
        ensures
            final(self)@ == old(self)@.step(signal),
            action == final(self)@.pending,
    {
        match signal {
            Signal::Event(kind) => {
                if let Action::AwaitEvent = self.pending {
                    self.pending = match kind {
                        EventKind::RedrawRequested => Action::PrepareOverlay,
                        EventKind::Other => Action::CaptureInput,
                    };
                }
            },
            Signal::Done => {
                self.pending = match self.pending {
                    Action::PrepareOverlay => Action::Present(PresentStep::Blit),
                    Action::Present(step) => match step.next() {
                        Some(next) => Action::Present(next),
                        None => Action::CaptureInput,
                    },
                    Action::CaptureInput => Action::UpdateInput,
                    Action::ResizeSurface(_) => Action::RequestRedraw,
                    Action::RequestRedraw => Action::AwaitEvent,
                    other => other,
                };
            },
            Signal::Failed => {
                self.pending = match self.pending {
                    Action::AwaitEvent => Action::AwaitEvent,
                    Action::UpdateInput => Action::UpdateInput,
                    Action::Exit(status) => Action::Exit(status),
                    Action::PrepareOverlay => Action::Exit(ExitStatus::Failure(Fault::Overlay)),
                    Action::Present(PresentStep::DrawOverlay) => Action::Exit(
                        ExitStatus::Failure(Fault::Overlay),
                    ),
                    Action::CaptureInput => Action::Exit(ExitStatus::Failure(Fault::Overlay)),
                    _ => Action::Exit(ExitStatus::Failure(Fault::Presentation)),
                };
            },
            Signal::Input(input) => {
                if let Action::UpdateInput = self.pending {
                    self.pending = self.decide(input);
                }
            },
        }
        self.pending
    }

    /// The decision at the end of input processing: wait on, leave, or resize
    /// and redraw.
    fn decide(&mut self, input: InputState) -> (next: Action)
        ensures
            final(self)@.surface == old(self)@.after_input(input).surface,
            final(self)@.pending == old(self)@.pending,
            next == old(self)@.after_input(input).pending,
    {
        if !input.tick_complete {
            return Action::AwaitEvent;
        }
        if input.quit_requested || input.cancel_pressed {
            return Action::Exit(ExitStatus::Success);
        }
        match input.resized {
            None => Action::RequestRedraw,
            Some(size) => match size.buffer_len() {
                None => Action::Exit(ExitStatus::Failure(Fault::Presentation)),
                Some(_) => match self.surface.resize(size) {
                    ResizeOutcome::Unchanged => Action::RequestRedraw,
                    ResizeOutcome::Reallocated => Action::ResizeSurface(size),
                },
            },
        }
    }

    /// The action under way.
    pub fn pending(&self) -> (action: Action)
        ensures
            action == self@.pending,
    {
        self.pending
    }

    /// The flag that says whether the loop goes on, has been asked to leave,
    /// or met a fault.
    pub fn flow(&self) -> (flow: ControlFlow)
        ensures
            flow == self@.pending.flow(),
    {
        match self.pending {
            Action::Exit(ExitStatus::Success) => ControlFlow::ExitRequested,
            Action::Exit(ExitStatus::Failure(_)) => ControlFlow::FatalError,
            _ => ControlFlow::Continue,
        }
    }

    /// The surface manager, for the bytes to blit.
    pub fn surface(&self) -> (surface: &SurfaceManager)
        ensures
            surface@ == self@.surface,
    {
        &self.surface
    }
}

/// Every report leaves the loop well formed: the pixel buffer keeps the length
/// that the surface's size asks for, and the presentable surface is only ever
/// asked to take the size that the pixel buffer already has.
pub proof fn lemma_step_keeps_well_formed(state: LoopModel, signal: Signal)
    requires
        state.well_formed(),
    ensures
        state.step(signal).well_formed(),
{
}

/// The loop is well formed after any sequence of reports.
pub proof fn lemma_run_keeps_well_formed(state: LoopModel, signals: Seq<Signal>)
    requires
        state.well_formed(),
    ensures
        state.run(signals).well_formed(),
    decreases signals.len(),
{
    if signals.len() > 0 {
        lemma_run_keeps_well_formed(state, signals.drop_last());
        lemma_step_keeps_well_formed(state.run(signals.drop_last()), signals.last());
    }
}

/// Only a new window size changes the surface: the overlay, the present and
/// the redraw request leave size and pixel buffer as they are.
pub proof fn lemma_only_resize_changes_surface(state: LoopModel, signal: Signal)
    requires
        state.step(signal).surface != state.surface,
    ensures
        state.pending == Action::UpdateInput,
        signal is Input,
        signal->Input_0.tick_complete,
        signal->Input_0.resized == Some(state.step(signal).surface.size),
        state.step(signal).pending == Action::ResizeSurface(state.step(signal).surface.size),
{
}

/// A present runs in order and whole: it begins with the blit once the
/// overlay is prepared, each later step is asked for only when the step before
/// it is reported done, and the overlay takes the event only after the frame
/// was submitted.
pub proof fn lemma_present_order(state: LoopModel, signal: Signal)
    requires
        state.step(signal).pending != state.pending,
    ensures
        state.step(signal).pending == Action::Present(PresentStep::Blit) ==> state.pending
            == Action::PrepareOverlay && signal == Signal::Done,
        state.step(signal).pending == Action::Present(PresentStep::DrawOverlay) ==> state.pending
            == Action::Present(PresentStep::Blit) && signal == Signal::Done,
        state.step(signal).pending == Action::Present(PresentStep::Submit) ==> state.pending
            == Action::Present(PresentStep::DrawOverlay) && signal == Signal::Done,
        state.pending is Present && signal == Signal::Done ==> state.step(signal).pending
            == Action::CaptureInput || state.step(signal).pending is Present,
{
}

/// Whether the loop comes to `later` from `earlier` alone, on a `Done`, and
/// leaves the surface as it is on the way and while `later` is under way.
spec fn follows_directly(earlier: Action, later: Action) -> bool {
    forall|state: LoopModel, signal: Signal|
        (#[trigger] state.step(signal)).pending == later ==> {
            &&& state.step(signal).surface == state.surface
            &&& state.pending != later ==> state.pending == earlier && signal == Signal::Done
        }
}

/// Whether a run that ends with `later` under way came to it from `earlier`:
/// at some point of the run `earlier` was under way and reported done, from
/// then on `later` was under way, and the surface is the one of that point.
pub open spec fn came_from(
    state: LoopModel,
    signals: Seq<Signal>,
    earlier: Action,
    later: Action,
) -> bool {
    exists|k: int|
        {
            &&& 0 <= k < signals.len()
            &&& (#[trigger] state.run(signals.take(k))).pending == earlier
            &&& signals[k] == Signal::Done
            &&& state.run(signals.take(k)).surface == state.run(signals).surface
            &&& forall|j: int|
                k < j <= signals.len() ==> (#[trigger] state.run(signals.take(j))).pending
                    == later
        }
}

proof fn lemma_came_from(state: LoopModel, signals: Seq<Signal>, earlier: Action, later: Action)
    requires
        follows_directly(earlier, later),
        state.pending != later,
        state.run(signals).pending == later,
    ensures
        came_from(state, signals, earlier, later),
    decreases signals.len(),
{
    let n = signals.len() as int;
    assert(signals.take(n) =~= signals);
    assert(n > 0);
    let before = signals.drop_last();
    assert(signals.take(n - 1) =~= before);
    let previous = state.run(before);
    assert(state.run(signals) == previous.step(signals.last()));
    if previous.pending != later {
        let k = n - 1;
        assert(state.run(signals.take(k)).pending == earlier);
        assert forall|j: int| k < j <= signals.len() implies (#[trigger] state.run(
            signals.take(j),
        )).pending == later by {
            assert(j == n);
        }
        assert(came_from(state, signals, earlier, later));
    } else {
        lemma_came_from(state, before, earlier, later);
        let k = choose|k: int|
            {
                &&& 0 <= k < before.len()
                &&& (#[trigger] state.run(before.take(k))).pending == earlier
                &&& before[k] == Signal::Done
                &&& state.run(before.take(k)).surface == state.run(before).surface
                &&& forall|j: int|
                    k < j <= before.len() ==> (#[trigger] state.run(before.take(j))).pending
                        == later
            };
        assert(before.take(k) =~= signals.take(k));
        assert forall|j: int| k < j <= signals.len() implies (#[trigger] state.run(
            signals.take(j),
        )).pending == later by {
            if j < n {
                assert(before.take(j) =~= signals.take(j));
            }
        }
        assert(came_from(state, signals, earlier, later));
    }
}

/// Whatever is reported to the loop, the overlay is drawn only over a blit:
/// where a run has the overlay's draw under way, the blit was under way
/// before it and was reported done, nothing else has been under way since, and
/// the pixel buffer is the one that was blitted.
pub proof fn lemma_blit_before_overlay(state: LoopModel, signals: Seq<Signal>)
    requires
        state.pending != Action::Present(PresentStep::DrawOverlay),
        state.run(signals).pending == Action::Present(PresentStep::DrawOverlay),
    ensures
        came_from(
            state,
            signals,
            Action::Present(PresentStep::Blit),
            Action::Present(PresentStep::DrawOverlay),
        ),
{
    lemma_came_from(
        state,
        signals,
        Action::Present(PresentStep::Blit),
        Action::Present(PresentStep::DrawOverlay),
    );
}

/// Whatever is reported to the loop, a frame is submitted only with the
/// overlay on it: where a run has the submission under way, the overlay's
/// draw was under way before it and was reported done, and nothing else has
/// been under way since.
pub proof fn lemma_overlay_before_submit(state: LoopModel, signals: Seq<Signal>)
    requires
        state.pending != Action::Present(PresentStep::Submit),
        state.run(signals).pending == Action::Present(PresentStep::Submit),
    ensures
        came_from(
            state,
            signals,
            Action::Present(PresentStep::DrawOverlay),
            Action::Present(PresentStep::Submit),
        ),
{
    lemma_came_from(
        state,
        signals,
        Action::Present(PresentStep::DrawOverlay),
        Action::Present(PresentStep::Submit),
    );
}

/// Within a tick the input is processed before the loop decides on exit and
/// resize, and the redraw is asked for after that decision: the input state is
/// read only once the overlay has taken the event, the surface is resized only
/// on an input state, and the redraw request follows an input state or the
/// resize that the input state led to.
pub proof fn lemma_tick_order(state: LoopModel, signal: Signal)
    requires
        state.step(signal).pending != state.pending,
    ensures
        state.step(signal).pending == Action::CaptureInput ==> (state.pending == Action::AwaitEvent
            && signal == Signal::Event(EventKind::Other)) || (state.pending == Action::Present(
            PresentStep::Submit,
        ) && signal == Signal::Done),
        state.step(signal).pending == Action::UpdateInput ==> state.pending == Action::CaptureInput
            && signal == Signal::Done,
        state.step(signal).pending is ResizeSurface ==> state.pending == Action::UpdateInput
            && signal is Input,
        state.step(signal).pending == Action::RequestRedraw ==> (state.pending
            == Action::UpdateInput && signal is Input) || (state.pending is ResizeSurface && signal
            == Signal::Done),
{
}

/// A tick that ends without a close request and without the cancel key leads
/// to a redraw request: at once, or once the presentable surface has taken the
/// new size.
pub proof fn lemma_tick_ends_in_redraw_request(state: LoopModel, input: InputState)
    requires
        state.pending == Action::UpdateInput,
        input.tick_complete,
        !input.quit_requested,
        !input.cancel_pressed,
        input.resized is Some ==> input.resized->Some_0.fits(),
    ensures
        state.step(Signal::Input(input)).pending == Action::RequestRedraw || (state.step(
            Signal::Input(input),
        ).pending is ResizeSurface && state.step(Signal::Input(input)).step(
            Signal::Done,
        ).pending == Action::RequestRedraw),
{
}

/// The loop has one cancellation point: it leaves with success only on the
/// input state that ends a tick, and only where that state holds a close
/// request or the cancel key. An action under way is never cut short.
pub proof fn lemma_one_cancellation_point(state: LoopModel, signal: Signal)
    requires
        state.pending != Action::Exit(ExitStatus::Success),
        state.step(signal).pending == Action::Exit(ExitStatus::Success),
    ensures
        state.pending == Action::UpdateInput,
        signal is Input,
        signal->Input_0.tick_complete,
        signal->Input_0.quit_requested || signal->Input_0.cancel_pressed,
{
}

/// At the end of a tick a close request or the cancel key ends the loop with
/// success at once, whatever else the input state holds. The surface is not
/// touched, and whatever is reported later, the loop asks for nothing more: no
/// redraw follows.
pub proof fn lemma_cancel_leaves(state: LoopModel, input: InputState, later: Seq<Signal>)
    requires
        state.pending == Action::UpdateInput,
        input.tick_complete,
        input.quit_requested || input.cancel_pressed,
    ensures
        state.step(Signal::Input(input)) == state.with(Action::Exit(ExitStatus::Success)),
        state.step(Signal::Input(input)).pending.flow() == ControlFlow::ExitRequested,
        state.step(Signal::Input(input)).run(later) == state.step(Signal::Input(input)),
{
    lemma_exit_is_final(state.step(Signal::Input(input)), later);
}

/// A failed action ends the loop with its fault: nothing is tried again.
pub proof fn lemma_failure_is_fatal(state: LoopModel)
    requires
        state.pending.completes(),
    ensures
        state.step(Signal::Failed) == state.with(
            Action::Exit(ExitStatus::Failure(state.pending.fault())),
        ),
        state.step(Signal::Failed).pending.flow() == ControlFlow::FatalError,
{
}

/// Once the loop has left, it stays as it is whatever is reported: no redraw
/// and no other action follows an exit.
pub proof fn lemma_exit_is_final(state: LoopModel, signals: Seq<Signal>)
    requires
        state.pending is Exit,
    ensures
        state.run(signals) == state,
    decreases signals.len(),
{
    if signals.len() > 0 {
        lemma_exit_is_final(state, signals.drop_last());
    }
}

} // verus!
