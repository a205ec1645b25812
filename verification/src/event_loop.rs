//! The render loop's state machine: what one wake-up (an event, or a
//! timer expiry) does to the loop's state, and which action it asks
//! the caller to perform.
use vstd::prelude::*;

verus! {

/// A key press, as the loop sees it.
#[derive(Clone, Copy, PartialEq, Eq, Structural, Debug)]
pub enum Key {
    /// The Escape key.
    Esc,
    /// A plain character key with no modifiers.
    Char(char),
    /// Any other key.
    Other,
}

/// A terminal event delivered to the loop.
#[derive(Clone, Copy, PartialEq, Eq, Structural, Debug)]
pub enum Event {
    /// The terminal was resized to this many columns and rows.
    Resize(u16, u16),
    /// A key was pressed.
    Key(Key),
    /// Any other event, such as mouse movement.
    Other,
}

/// The loop's two states.
#[derive(Clone, Copy, PartialEq, Eq, Structural, Debug)]
pub enum LoopState {
    Running,
    Terminating,
}

/// What the caller must do after one wake-up.
#[derive(Clone, Copy, PartialEq, Eq, Structural, Debug)]
pub enum Action {
    /// Re-initialize the screen (recenter vertically, reapply colour)
    /// and redraw at the new horizontal center.
    Reinitialize,
    /// Redraw the time at the current center.
    Redraw,
    /// Do nothing: the event was irrelevant.
    Ignore,
    /// Restore the terminal and stop.
    Quit,
}

/// Whether a key quits the loop: Escape or `q`.
pub open spec fn is_quit_key(k: Key) -> bool {
    k == Key::Esc || k == Key::Char('q')
}

/// The loop's mutable state: where it is, and the dimensions the last
/// layout used.
pub struct RenderLoop {
    pub state: LoopState,
    pub columns: u16,
    pub rows: u16,
}

/// What one wake-up does, while the loop is running:
/// - no event before the interval elapsed: redraw, keep everything;
/// - a resize: store the new dimensions and re-initialize immediately;
/// - a quit key (Escape or `q`): terminate;
/// - any other key or event: ignore it, no redraw.
pub open spec fn spec_step(l: RenderLoop, e: Option<Event>) -> (RenderLoop, Action) {
    match e {
        None => (l, Action::Redraw),
        Some(Event::Resize(c, r)) => (
            (RenderLoop { state: l.state, columns: c, rows: r }),
            Action::Reinitialize,
        ),
        Some(Event::Key(k)) => if is_quit_key(k) {
            (
                (RenderLoop { state: LoopState::Terminating, columns: l.columns, rows: l.rows }),
                Action::Quit,
            )
        } else {
            (l, Action::Ignore)
        },
        Some(Event::Other) => (l, Action::Ignore),
    }
}

/// Both Escape and `q` terminate the loop; every other key leaves it
/// running, with its dimensions kept and no redraw.
pub proof fn lemma_quit_semantics(l: RenderLoop, k: Key)
    requires
        l.state is Running,
    ensures
        spec_step(l, Some(Event::Key(k))).0.state is Terminating <==> (k == Key::Esc || k
            == Key::Char('q')),
        !is_quit_key(k) ==> spec_step(l, Some(Event::Key(k))) == ((l, Action::Ignore)),
{
}

/// A resize wake-up re-renders immediately, at the new dimensions,
/// without waiting for the next tick; the loop keeps running.
pub proof fn lemma_resize_rerenders(l: RenderLoop, c: u16, r: u16)
    requires
        l.state is Running,
    ensures
        spec_step(l, Some(Event::Resize(c, r))).1 == Action::Reinitialize,
        spec_step(l, Some(Event::Resize(c, r))).0.columns == c,
        spec_step(l, Some(Event::Resize(c, r))).0.rows == r,
        spec_step(l, Some(Event::Resize(c, r))).0.state is Running,
{
}

impl RenderLoop {
    /// A loop about to run its first iteration, with the initial
    /// terminal dimensions.
    pub fn new(columns: u16, rows: u16) -> (l: RenderLoop)
        ensures
            l == (RenderLoop { state: LoopState::Running, columns, rows }),
    {
        RenderLoop { state: LoopState::Running, columns, rows }
    }

    /// React to one wake-up: either an event arrived within the poll
    /// interval, or none did and the tick fell due.
    pub fn on_wake(&mut self, event: Option<Event>) -> (a: Action)
        requires
            old(self).state is Running,
        ensures
            ((*final(self), a)) == spec_step(*old(self), event),
    {
        match event {
            None => Action::Redraw,
            Some(Event::Resize(c, r)) => {
                self.columns = c;
                self.rows = r;
                Action::Reinitialize
            },
            Some(Event::Key(k)) => {
                let quit = match k {
                    Key::Esc => true,
                    Key::Char(c) => c == 'q',
                    Key::Other => false,
                };
                if quit {
                    self.state = LoopState::Terminating;
                    Action::Quit
                } else {
                    Action::Ignore
                }
            },
            Some(Event::Other) => Action::Ignore,
        }
    }
}

} // verus!
