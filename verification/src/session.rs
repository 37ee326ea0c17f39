//! The course of one playback session: build the stream, start it, leave it
//! playing for a fixed time, release it.
//!
//! The session decides; its driver acts. The driver performs the action that
//! the session names, and reports how it went as an event.
use vstd::prelude::*;
use vstd::string::StringExecFns;

verus! {

/// How long the stream is left playing, in milliseconds.
pub const PLAY_MILLIS: u64 = 1000;

/// How a session ended.
#[derive(Clone, Copy, Debug, PartialEq, Eq, Structural)]
pub enum Outcome {
    /// The stream played for the whole time.
    Completed,
    /// The stream could not be built.
    BuildFailed,
    /// The stream was built and could not be started.
    StartFailed,
}

/// Where a session stands.
#[derive(Clone, Copy, Debug, PartialEq, Eq, Structural)]
pub enum SessionState {
    /// No stream exists yet.
    Unbuilt,
    /// The stream is built and makes no callbacks yet.
    Built,
    /// The stream is started: the driver calls back for samples.
    Playing,
    /// The stream is stopped and released, or never came to exist.
    Stopped(Outcome),
}

/// What the driver reports to the session.
#[derive(Clone, Copy, Debug, PartialEq, Eq, Structural)]
pub enum Event {
    /// The stream was built.
    StreamBuilt,
    /// Building the stream failed.
    BuildFailed,
    /// The stream was started.
    StreamStarted,
    /// Starting the stream failed.
    StartFailed,
    /// The playing time has passed.
    Elapsed,
}

/// What the session asks of its driver.
#[derive(Clone, Copy, Debug, PartialEq, Eq, Structural)]
pub enum Action {
    /// Build the output stream.
    BuildStream,
    /// Start the stream.
    StartStream,
    /// Block for this many milliseconds.
    Hold(u64),
    /// Release the stream, if there is one, and end with this outcome.
    Finish(Outcome),
}

impl SessionState {
    /// The state that follows `self` on `event`. An event that does not
    /// belong to the state leaves it as it is.
    pub open spec fn after(self, event: Event) -> SessionState {
        match (self, event) {
            (SessionState::Unbuilt, Event::StreamBuilt) => SessionState::Built,
            (SessionState::Unbuilt, Event::BuildFailed) => SessionState::Stopped(
                Outcome::BuildFailed,
            ),
            (SessionState::Built, Event::StreamStarted) => SessionState::Playing,
            (SessionState::Built, Event::StartFailed) => SessionState::Stopped(
                Outcome::StartFailed,
            ),
            (SessionState::Playing, Event::Elapsed) => SessionState::Stopped(Outcome::Completed),
            _ => self,
        }
    }

    /// What the driver is to do in state `self`.
    pub open spec fn pending(self) -> Action {
        match self {
            SessionState::Unbuilt => Action::BuildStream,
            SessionState::Built => Action::StartStream,
            SessionState::Playing => Action::Hold(PLAY_MILLIS),
            SessionState::Stopped(outcome) => Action::Finish(outcome),
        }
    }

    /// The state that a session begins in.
    pub fn new() -> (state: SessionState)
        ensures
            state == SessionState::Unbuilt,
    {
        SessionState::Unbuilt
    }

    /// What the driver is to do next.
    pub fn next_action(&self) -> (action: Action)
        ensures
            action == self.pending(),
    {
        match self {
            SessionState::Unbuilt => Action::BuildStream,
            SessionState::Built => Action::StartStream,
            SessionState::Playing => Action::Hold(PLAY_MILLIS),
            SessionState::Stopped(outcome) => Action::Finish(*outcome),
        }
    }

    /// Takes in what the driver reports.
    pub fn on_event(&self, event: Event) -> (next: SessionState)
        ensures
            next == self.after(event),
    {
        match (self, event) {
            (SessionState::Unbuilt, Event::StreamBuilt) => SessionState::Built,
            (SessionState::Unbuilt, Event::BuildFailed) => SessionState::Stopped(
                Outcome::BuildFailed,
            ),
            (SessionState::Built, Event::StreamStarted) => SessionState::Playing,
            (SessionState::Built, Event::StartFailed) => SessionState::Stopped(
                Outcome::StartFailed,
            ),
            (SessionState::Playing, Event::Elapsed) => SessionState::Stopped(Outcome::Completed),
            _ => *self,
        }
    }
}

/// A stopped session stays stopped, with its outcome, whatever is reported.
pub proof fn lemma_stopped_is_final(outcome: Outcome, event: Event)
    ensures
        SessionState::Stopped(outcome).after(event) == SessionState::Stopped(outcome),
{
}

/// A session starts playing only from the built state, when the stream is
/// reported started. In particular a stopped session never plays again.
pub proof fn lemma_playing_begins_once(state: SessionState, event: Event)
    requires
        state.after(event) == SessionState::Playing,
        state != SessionState::Playing,
    ensures
        state == SessionState::Built,
        event == Event::StreamStarted,
{
}

/// A session whose stream is built, started and left to play ends completed,
/// after the driver was asked to build, to start, to hold for the playing
/// time and to finish, in this order.
pub proof fn lemma_full_run()
    ensures
        SessionState::Unbuilt.pending() == Action::BuildStream,
        SessionState::Unbuilt.after(Event::StreamBuilt).pending() == Action::StartStream,
        SessionState::Unbuilt.after(Event::StreamBuilt).after(Event::StreamStarted).pending()
            == Action::Hold(PLAY_MILLIS),
        SessionState::Unbuilt.after(Event::StreamBuilt).after(Event::StreamStarted).after(
            Event::Elapsed,
        ).pending() == Action::Finish(Outcome::Completed),
{
}

/// The line written to the diagnostic sink when the driver reports an error
/// on the running stream: a fixed prefix, then the error's description.
pub fn stream_error_message(description: &str) -> (line: String)
    ensures
        line@ == "an error occurred on stream: "@ + description@,
{
    String::from_str("an error occurred on stream: ").concat(description)
}

} // verus!
