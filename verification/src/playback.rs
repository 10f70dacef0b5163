//! The playback session as a state machine.
//!
//! One session runs `Starting -> Playing -> Draining -> Stopped` and never
//! restarts. The decisions live here; the frontend performs each returned
//! action (spawn, read, render, sleep, wait) and reports what happened as
//! the next event.

use vstd::prelude::*;

verus! {

/// Width of the fallback character grid used when the terminal size
/// cannot be queried.
pub const DEFAULT_WIDTH: u16 = 209;

/// Height of the fallback character grid used when the terminal size
/// cannot be queried.
pub const DEFAULT_HEIGHT: u16 = 52;

/// States of one playback session, in the order they are passed through.
#[derive(Debug, Clone, Copy, PartialEq, Eq, Structural)]
pub enum PlaybackState {
    Starting,
    Playing,
    Draining,
    Stopped,
}

/// What the frontend observed since the last step.
#[derive(Debug, Clone, Copy, PartialEq, Eq, Structural)]
pub enum PlaybackEvent {
    /// The frame source and renderer are constructed and the one-time
    /// screen clear is done.
    SessionReady,
    /// A full frame was read.
    FrameReady,
    /// The stream ended before another full frame.
    EndOfStream,
    /// The decoder process was reaped; `true` means it exited cleanly.
    ChildExited(bool),
}

/// What the frontend must do after a step.
#[derive(Debug, Clone, Copy, PartialEq, Eq, Structural)]
pub enum PlaybackAction {
    /// Read the next frame from the stream.
    ReadFrame,
    /// Render the frame just read, sleep the inter-frame delay, then read
    /// the next frame.
    RenderSleepAndRead,
    /// Block until the decoder process exits and reap it.
    WaitForChild,
    /// End the session; `true` means it ended cleanly.
    Finish(bool),
}

/// Which events a state can observe: `Stopped` is terminal and observes
/// none.
pub open spec fn spec_event_allowed(state: PlaybackState, event: PlaybackEvent) -> bool {
    match (state, event) {
        (PlaybackState::Starting, PlaybackEvent::SessionReady) => true,
        (PlaybackState::Playing, PlaybackEvent::FrameReady) => true,
        (PlaybackState::Playing, PlaybackEvent::EndOfStream) => true,
        (PlaybackState::Draining, PlaybackEvent::ChildExited(_)) => true,
        _ => false,
    }
}

/// The transition relation of the session.
pub open spec fn spec_step(state: PlaybackState, event: PlaybackEvent) -> (
    PlaybackState,
    PlaybackAction,
) {
    match (state, event) {
        (PlaybackState::Starting, _) => (PlaybackState::Playing, PlaybackAction::ReadFrame),
        (PlaybackState::Playing, PlaybackEvent::FrameReady) => (
            PlaybackState::Playing,
            PlaybackAction::RenderSleepAndRead,
        ),
        (PlaybackState::Playing, _) => (PlaybackState::Draining, PlaybackAction::WaitForChild),
        (PlaybackState::Draining, PlaybackEvent::ChildExited(ok)) => (
            PlaybackState::Stopped,
            PlaybackAction::Finish(ok),
        ),
        _ => (PlaybackState::Stopped, PlaybackAction::Finish(false)),
    }
}

/// Advances the session by one observed event.
pub fn step(state: PlaybackState, event: PlaybackEvent) -> (r: (PlaybackState, PlaybackAction))
    requires
        spec_event_allowed(state, event),
    ensures
        r == spec_step(state, event),
{
    match (state, event) {
        (PlaybackState::Starting, _) => (PlaybackState::Playing, PlaybackAction::ReadFrame),
        (PlaybackState::Playing, PlaybackEvent::FrameReady) => (
            PlaybackState::Playing,
            PlaybackAction::RenderSleepAndRead,
        ),
        (PlaybackState::Playing, _) => (PlaybackState::Draining, PlaybackAction::WaitForChild),
        (PlaybackState::Draining, PlaybackEvent::ChildExited(ok)) => (
            PlaybackState::Stopped,
            PlaybackAction::Finish(ok),
        ),
        _ => (PlaybackState::Stopped, PlaybackAction::Finish(false)),
    }
}

/// Position of a state along the session's one-way course.
pub open spec fn spec_state_rank(state: PlaybackState) -> int {
    match state {
        PlaybackState::Starting => 0,
        PlaybackState::Playing => 1,
        PlaybackState::Draining => 2,
        PlaybackState::Stopped => 3,
    }
}

/// A session never restarts: every allowed step keeps the state where it
/// is or moves it forward, and `Stopped` is never left.
pub proof fn lemma_playback_never_restarts(state: PlaybackState, event: PlaybackEvent)
    requires
        spec_event_allowed(state, event),
    ensures
        spec_state_rank(spec_step(state, event).0) >= spec_state_rank(state),
        state is Stopped ==> spec_step(state, event).0 is Stopped,
{
}

/// The character grid of the session: the queried terminal size with the
/// last row reserved against scroll-triggered flicker, or the fixed
/// default pair when no size could be queried.
pub open spec fn spec_session_dimensions(query: Option<(u16, u16)>) -> (usize, usize) {
    let (w, h) = match query {
        Some(pair) => pair,
        None => (DEFAULT_WIDTH, DEFAULT_HEIGHT),
    };
    (w as usize, if h >= 1 { (h - 1) as usize } else { 0usize })
}

/// Dimensions for one session, derived from a terminal-size query result.
pub fn session_dimensions(query: Option<(u16, u16)>) -> (dims: (usize, usize))
    ensures
        dims == spec_session_dimensions(query),
{
    let (w, h) = match query {
        Some(pair) => pair,
        None => (DEFAULT_WIDTH, DEFAULT_HEIGHT),
    };
    let rows: usize = if h >= 1 {
        (h - 1) as usize
    } else {
        0
    };
    (w as usize, rows)
}

} // verus!
