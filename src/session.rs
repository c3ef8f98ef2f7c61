//! The drawing session: when a frame is due, and what the window's events ask.

use crate::clock::local_now;
use crate::clock::ClockTime;
use crate::grid::clock_frame;
use crate::grid::clock_leds;
use crate::grid::Led;
use vstd::prelude::*;

verus! {

/// When an unforced render draws.
#[derive(Clone, Copy, Debug, PartialEq, Eq, Structural)]
pub enum RedrawPolicy {
    /// Only when the second shown has changed since the last frame.
    OnChange,
    /// Every time.
    Always,
}

/// What the session remembers between frames.
#[derive(Clone, Copy, Debug, PartialEq, Eq, Structural)]
pub struct Renderer {
    pub policy: RedrawPolicy,
    /// The timestamp of the last frame drawn, if any.
    pub last_drawn: Option<i64>,
}

impl Renderer {
    /// Whether a render at `timestamp` draws.
    pub open spec fn needs_redraw(self, timestamp: i64, force: bool) -> bool {
        force || self.policy == RedrawPolicy::Always || self.last_drawn != Some(timestamp)
    }

    /// The session after a render at `timestamp`.
    pub open spec fn after(self, timestamp: i64, force: bool) -> Renderer {
        if self.needs_redraw(timestamp, force) {
            Renderer { last_drawn: Some(timestamp), ..self }
        } else {
            self
        }
    }

    /// A session that has drawn nothing yet.
    pub fn new(policy: RedrawPolicy) -> (r: Renderer)
        ensures
            r.policy == policy,
            r.last_drawn is None,
    {
        Renderer { policy, last_drawn: None }
    }

    /// Whether a render at `timestamp` draws.
    pub fn should_draw(&self, timestamp: i64, force: bool) -> (r: bool)
        ensures
            r == self.needs_redraw(timestamp, force),
    {
        if force {
            return true;
        }
        match self.policy {
            RedrawPolicy::Always => true,
            RedrawPolicy::OnChange => match self.last_drawn {
                Some(ts) => ts != timestamp,
                None => true,
            },
        }
    }

    /// Renders the frame for `now` if one is due: returns its tiles, or `None`
    /// when the frame on screen still shows this second.
    pub fn render_at(&mut self, now: &ClockTime, force: bool) -> (r: Option<Vec<Led>>)
        requires
            now.wf(),
        ensures
            *final(self) == old(self).after(now.timestamp, force),
            r is Some <==> old(self).needs_redraw(now.timestamp, force),
            r matches Some(leds) ==> leds@ == clock_leds(*now),
            force ==> r is Some,
    {
        if !self.should_draw(now.timestamp, force) {
            return None;
        }
        self.last_drawn = Some(now.timestamp);
        Some(clock_frame(now))
    }

    /// Reads the local time and renders it as `render_at` does; returns the
    /// time read beside the tiles.
    pub fn render(&mut self, force: bool) -> (r: (ClockTime, Option<Vec<Led>>))
        ensures
            r.0.wf(),
            *final(self) == old(self).after(r.0.timestamp, force),
            r.1 is Some <==> old(self).needs_redraw(r.0.timestamp, force),
            r.1 matches Some(leds) ==> leds@ == clock_leds(r.0),
            force ==> r.1 is Some,
    {
        let now = local_now();
        let leds = self.render_at(&now, force);
        (now, leds)
    }
}

/// Once a change-detecting session has rendered at a timestamp, an unforced
/// render at the same timestamp draws nothing and leaves it as it is: two
/// renders within one second draw at most once.
pub proof fn lemma_same_second_draws_once(r: Renderer, timestamp: i64, force: bool)
    requires
        r.policy == RedrawPolicy::OnChange,
    ensures
        !r.after(timestamp, force).needs_redraw(timestamp, false),
        r.after(timestamp, force).after(timestamp, false) == r.after(timestamp, force),
{
}

/// A forced render draws, whatever the session and the time.
pub proof fn lemma_forced_render_draws(r: Renderer, timestamp: i64)
    ensures
        r.needs_redraw(timestamp, true),
        r.after(timestamp, true).last_drawn == Some(timestamp),
{
}

/// An event of the window, as far as the clock cares.
#[derive(Clone, Copy, Debug, PartialEq, Eq, Structural)]
pub enum Input {
    /// The window was closed.
    Quit,
    /// The escape key was pressed.
    EscapeKey,
    /// The window was uncovered and must be drawn again.
    Exposed,
    /// The wait for an event ran out.
    Timeout,
    /// Any other event.
    Other,
}

/// What the event loop does next.
#[derive(Clone, Copy, Debug, PartialEq, Eq, Structural)]
pub enum Action {
    Stop,
    Render { force: bool },
}

/// The step that an event calls for: quit and escape stop the loop, an
/// exposed window forces a redraw, anything else renders if the second changed.
pub fn on_input(input: Input) -> (r: Action)
    ensures
        r == (match input {
            Input::Quit | Input::EscapeKey => Action::Stop,
            Input::Exposed => Action::Render { force: true },
            Input::Timeout | Input::Other => Action::Render { force: false },
        }),
{
    match input {
        Input::Quit | Input::EscapeKey => Action::Stop,
        Input::Exposed => Action::Render { force: true },
        Input::Timeout | Input::Other => Action::Render { force: false },
    }
}

} // verus!
