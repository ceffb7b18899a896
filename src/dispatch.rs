use vstd::prelude::*;

verus! {

/// The modifier keys held down.
#[derive(PartialEq, Eq, Structural, Clone, Copy, Debug)]
pub struct Modifiers {
    pub shift: bool,
    pub control: bool,
    pub alt: bool,
    /// The platform's "super" key (Command, Windows).
    pub logo: bool,
}

impl Modifiers {
    pub fn none() -> (m: Modifiers)
        ensures
            !m.shift && !m.control && !m.alt && !m.logo,
    {
        Modifiers { shift: false, control: false, alt: false, logo: false }
    }
}

/// The key that, pressed with the logo modifier, quits.
pub const QUIT_KEY: char = 'q';

/// Modifier keys and cursor position as last reported by the platform.
#[derive(PartialEq, Eq, Clone, Copy, Debug)]
pub struct InteractionState {
    pub modifiers: Modifiers,
    /// Cursor position in whole physical pixels.
    pub cursor: (i32, i32),
}

/// A platform event, as much of it as the scheduler reads.
#[derive(PartialEq, Eq, Clone, Copy, Debug)]
pub enum Event {
    CloseRequested,
    ModifiersChanged(Modifiers),
    /// A key press, with the character it produces where it produces exactly one.
    KeyPressed(Option<char>),
    CursorMoved(i32, i32),
    /// The window's new physical size.
    Resized(u32, u32),
    RedrawRequested,
    /// Any event the scheduler does not act on.
    Other,
}

/// Where the loop stands within an iteration.
#[derive(PartialEq, Eq, Structural, Clone, Copy, Debug)]
pub enum Phase {
    Idle,
    /// Waiting for the caller to bind a raster surface at the current size.
    Binding,
    /// Waiting for the caller to paint and present the frame.
    Painting,
    /// Terminal: no further events are processed.
    ShuttingDown,
}

/// What the caller must do after handing the scheduler an event or an outcome.
#[derive(PartialEq, Eq, Structural, Clone, Copy, Debug)]
pub enum Action {
    Nothing,
    /// Ask the window for a redraw event.
    RequestRedraw,
    /// Build a new raster surface of this physical size, dropping the old one,
    /// then report with `bind_finished`.
    Bind(u32, u32),
    /// Clear, paint the layers, flush and present; then report with
    /// `frame_presented`.
    Paint,
    /// Leave the loop.
    Exit,
    /// Leave the loop with a fatal error: binding failed too often in a row.
    Fail,
}

/// The bind is given up as fatal after this many consecutive failures.
pub const MAX_BIND_FAILURES: u8 = 3;

/// The scheduler's whole state.
#[derive(PartialEq, Eq, Clone, Copy, Debug)]
pub struct LoopState {
    pub phase: Phase,
    pub interaction: InteractionState,
    /// The frame must be painted on the next redraw.
    pub dirty: bool,
    /// The window's physical size as last reported. A change of it drops the
    /// bound surface, whose framebuffer the platform reallocates.
    pub size: (u32, u32),
    /// The size of the live raster surface, if one is bound.
    pub bound: Option<(u32, u32)>,
    /// Consecutive failed binds.
    pub bind_failures: u8,
}

impl LoopState {
    /// The state of a new loop: idle and dirty, with no modifier held, the
    /// cursor at the origin and no surface bound.
    pub open spec fn initial(width: u32, height: u32) -> LoopState {
        LoopState {
            phase: Phase::Idle,
            interaction: InteractionState {
                modifiers: Modifiers { shift: false, control: false, alt: false, logo: false },
                cursor: (0, 0),
            },
            dirty: true,
            size: (width, height),
            bound: None,
            bind_failures: 0,
        }
    }

    pub open spec fn wf(self) -> bool {
        self.phase != Phase::ShuttingDown ==> self.bind_failures < MAX_BIND_FAILURES
    }

    pub open spec fn is_quit(self, key: Option<char>) -> bool {
        self.interaction.modifiers.logo && key == Some(QUIT_KEY)
    }

    /// The state after `e` and the action it asks for, from a state outside
    /// of a frame.
    pub open spec fn on_event(self, e: Event) -> (LoopState, Action) {
        if self.phase == Phase::ShuttingDown {
            (self, Action::Nothing)
        } else {
            match e {
                Event::CloseRequested => (LoopState { phase: Phase::ShuttingDown, ..self }, Action::Exit),
                Event::ModifiersChanged(m) => (
                    LoopState { interaction: InteractionState { modifiers: m, ..self.interaction }, ..self },
                    Action::Nothing,
                ),
                Event::KeyPressed(k) => if self.is_quit(k) {
                    (LoopState { phase: Phase::ShuttingDown, ..self }, Action::Exit)
                } else {
                    (LoopState { dirty: true, ..self }, Action::RequestRedraw)
                },
                Event::CursorMoved(x, y) => (
                    LoopState { interaction: InteractionState { cursor: (x, y), ..self.interaction }, ..self },
                    Action::Nothing,
                ),
                Event::Resized(w, h) => if (w, h) == self.size {
                    (self, Action::Nothing)
                } else {
                    (LoopState { size: (w, h), dirty: true, bound: None, ..self }, Action::RequestRedraw)
                },
                Event::RedrawRequested => if !self.dirty {
                    (self, Action::Nothing)
                } else if self.bound == Some(self.size) {
                    (LoopState { phase: Phase::Painting, ..self }, Action::Paint)
                } else {
                    (LoopState { phase: Phase::Binding, ..self }, Action::Bind(self.size.0, self.size.1))
                },
                Event::Other => (self, Action::Nothing),
            }
        }
    }

    /// The state after a bind of the current size succeeded or failed.
    pub open spec fn on_bind(self, ok: bool) -> (LoopState, Action) {
        if ok {
            (LoopState { phase: Phase::Painting, bound: Some(self.size), bind_failures: 0, ..self }, Action::Paint)
        } else if self.bind_failures + 1 >= MAX_BIND_FAILURES {
            (LoopState { phase: Phase::ShuttingDown, bound: None, bind_failures: (self.bind_failures + 1) as u8, ..self }, Action::Fail)
        } else {
            (LoopState { phase: Phase::Idle, bound: None, bind_failures: (self.bind_failures + 1) as u8, ..self }, Action::RequestRedraw)
        }
    }

    /// The state after the frame was painted and presented.
    pub open spec fn on_presented(self) -> LoopState {
        LoopState { phase: Phase::Idle, dirty: false, ..self }
    }
}

/// The event-driven frame scheduler. It decides, event by event, whether to
/// repaint, rebind the raster surface or stop; the caller talks to the
/// platform and reports back.
pub struct FrameLoop {
    state: LoopState,
}

impl FrameLoop {
    pub closed spec fn view(&self) -> LoopState {
        self.state
    }

    /// A loop for a window of the given physical size: idle, dirty, with no
    /// surface bound yet.
    pub fn new(width: u32, height: u32) -> (l: FrameLoop)
        ensures
            l@ == LoopState::initial(width, height),
            l@.wf(),
    {
        FrameLoop {
            state: LoopState {
                phase: Phase::Idle,
                interaction: InteractionState { modifiers: Modifiers::none(), cursor: (0, 0) },
                dirty: true,
                size: (width, height),
                bound: None,
                bind_failures: 0,
            },
        }
    }

    pub fn state(&self) -> (s: LoopState)
        ensures
            s == self@,
    {
        self.state
    }

    pub fn is_dirty(&self) -> (r: bool)
        ensures
            r == self@.dirty,
    {
        self.state.dirty
    }

    pub fn phase(&self) -> (r: Phase)
        ensures
            r == self@.phase,
    {
        self.state.phase
    }

    pub fn interaction(&self) -> (r: InteractionState)
        ensures
            r == self@.interaction,
    {
        self.state.interaction
    }

    /// Handles one platform event, in delivery order. Painting never happens
    /// inside this call: at most it is asked for.
    pub fn handle_event(&mut self, e: Event) -> (a: Action)
        requires
            old(self)@.wf(),
            old(self)@.phase == Phase::Idle || old(self)@.phase == Phase::ShuttingDown,
        ensures
            (final(self)@, a) == old(self)@.on_event(e),
            final(self)@.wf(),
    {
        if self.state.phase == Phase::ShuttingDown {
            return Action::Nothing;
        }
        match e {
            Event::CloseRequested => {
                self.state.phase = Phase::ShuttingDown;
                Action::Exit
            },
            Event::ModifiersChanged(m) => {
                self.state.interaction.modifiers = m;
                Action::Nothing
            },
            Event::KeyPressed(k) => {
                let quit = self.state.interaction.modifiers.logo && match k {
                    Some(c) => c == QUIT_KEY,
                    None => false,
                };
                if quit {
                    self.state.phase = Phase::ShuttingDown;
                    Action::Exit
                } else {
                    self.state.dirty = true;
                    Action::RequestRedraw
                }
            },
            Event::CursorMoved(x, y) => {
                self.state.interaction.cursor = (x, y);
                Action::Nothing
            },
            Event::Resized(w, h) => {
                if w == self.state.size.0 && h == self.state.size.1 {
                    Action::Nothing
                } else {
                    self.state.size = (w, h);
                    self.state.dirty = true;
                    self.state.bound = None;
                    Action::RequestRedraw
                }
            },
            Event::RedrawRequested => {
                if !self.state.dirty {
                    Action::Nothing
                } else {
                    let fresh = match self.state.bound {
                        Some(b) => b.0 == self.state.size.0 && b.1 == self.state.size.1,
                        None => false,
                    };
                    if fresh {
                        self.state.phase = Phase::Painting;
                        Action::Paint
                    } else {
                        self.state.phase = Phase::Binding;
                        Action::Bind(self.state.size.0, self.state.size.1)
                    }
                }
            },
            Event::Other => Action::Nothing,
        }
    }

    /// Reports whether the bind asked for by `Action::Bind` succeeded. A failed
    /// bind skips the frame and keeps it dirty; too many in a row are fatal.
    pub fn bind_finished(&mut self, ok: bool) -> (a: Action)
        requires
            old(self)@.wf(),
            old(self)@.phase == Phase::Binding,
        ensures
            (final(self)@, a) == old(self)@.on_bind(ok),
            final(self)@.wf(),
    {
        if ok {
            self.state.phase = Phase::Painting;
            self.state.bound = Some(self.state.size);
            self.state.bind_failures = 0;
            Action::Paint
        } else {
            self.state.bound = None;
            self.state.bind_failures = self.state.bind_failures + 1;
            if self.state.bind_failures >= MAX_BIND_FAILURES {
                self.state.phase = Phase::ShuttingDown;
                Action::Fail
            } else {
                self.state.phase = Phase::Idle;
                Action::RequestRedraw
            }
        }
    }

    /// Reports that the frame asked for by `Action::Paint` was presented.
    pub fn frame_presented(&mut self)
        requires
            old(self)@.wf(),
            old(self)@.phase == Phase::Painting,
        ensures
            final(self)@ == old(self)@.on_presented(),
            final(self)@.wf(),
    {
        self.state.phase = Phase::Idle;
        self.state.dirty = false;
    }
}

/// Whether `e` changes what the frame shows, from state `s`: a key press
/// that does not quit, or a resize to another size.
pub open spec fn changes_frame(s: LoopState, e: Event) -> bool {
    match e {
        Event::KeyPressed(k) => !s.is_quit(k),
        Event::Resized(w, h) => (w, h) != s.size,
        _ => false,
    }
}

/// The frame is dirty when the loop starts, clean once a frame has been
/// presented, and stays clean through every event that does not change what
/// the frame shows.
pub proof fn lemma_dirty_flag_lifecycle(width: u32, height: u32, s: LoopState, e: Event)
    ensures
        LoopState::initial(width, height).dirty,
        !s.on_presented().dirty,
        (!s.dirty && !changes_frame(s, e)) ==> !s.on_event(e).0.dirty,
        (!s.dirty && !changes_frame(s, e)) ==> s.on_event(e).1 != Action::Paint && s.on_event(
            e,
        ).1 != Action::RequestRedraw,
{
}

/// Whatever the modifiers and cursor were, once the logo modifier is reported
/// held, pressing the quit key moves the loop straight to shutting down and
/// asks to leave, without painting.
pub proof fn lemma_quit_key_shuts_down(s: LoopState, m: Modifiers)
    requires
        s.phase == Phase::Idle,
        m.logo,
    ensures
        ({
            let s1 = s.on_event(Event::ModifiersChanged(m)).0;
            let (s2, a) = s1.on_event(Event::KeyPressed(Some(QUIT_KEY)));
            &&& s1.phase == Phase::Idle
            &&& s2 == (LoopState { phase: Phase::ShuttingDown, ..s1 })
            &&& a == Action::Exit
        }),
{
}

/// After shutting down, no event changes the state or asks for anything.
pub proof fn lemma_shut_down_is_final(s: LoopState, e: Event)
    requires
        s.phase == Phase::ShuttingDown,
    ensures
        s.on_event(e) == (s, Action::Nothing),
{
}

} // verus!
