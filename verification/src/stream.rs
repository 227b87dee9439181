//! The streaming engine as the player sees it: the transport state that it
//! reports, and the requests that it takes.

use vstd::prelude::*;

verus! {

/// The state that the streaming engine itself reports.
#[derive(Clone, Copy, Debug, PartialEq, Eq, Structural)]
pub enum EngineState {
    /// No state change is pending.
    VoidPending,
    /// The engine holds no resources.
    Null,
    /// The engine is ready to take a source.
    Ready,
    /// The engine holds its position in the stream.
    Paused,
    /// The engine plays.
    Playing,
    /// A state outside the engine's known states, with its native number.
    Unknown(i32),
}

/// The transport state of the stream.
#[derive(Clone, Copy, Debug, PartialEq, Eq, Structural)]
pub enum StreamState {
    Playing,
    Paused,
    Stopped,
}

/// What the streaming engine reports of the stream on its own account.
#[derive(Clone, Copy, Debug, PartialEq, Eq, Structural)]
pub enum StreamEvent {
    /// The track that plays is about to finish.
    Completed,
}

/// One request to the streaming engine.
#[derive(Debug, PartialEq, Eq)]
pub enum EngineAction {
    /// Take the source at this URI as the next one to play.
    Load(String),
    /// Start playback.
    Start,
    /// Pause playback and keep the position.
    Pause,
    /// Stop playback and go back to the beginning of the source.
    Stop,
}

/// One request to the streaming engine, as plain values.
pub ghost enum Request {
    Load(Seq<char>),
    Start,
    Pause,
    Stop,
}

impl View for EngineAction {
    type V = Request;

    open spec fn view(&self) -> Request {
        match *self {
            EngineAction::Load(uri) => Request::Load(uri@),
            EngineAction::Start => Request::Start,
            EngineAction::Pause => Request::Pause,
            EngineAction::Stop => Request::Stop,
        }
    }
}

/// The requests that a list of actions stands for, in its order.
pub open spec fn requests(actions: Seq<EngineAction>) -> Seq<Request> {
    actions.map_values(|a: EngineAction| a@)
}

impl StreamState {
    /// The transport state that an engine state stands for: playing and
    /// paused are themselves, every idle state is stopped, and a state
    /// outside the known ones stands for nothing.
    pub open spec fn recognised(state: EngineState) -> Option<StreamState> {
        match state {
            EngineState::Playing => Some(StreamState::Playing),
            EngineState::Paused => Some(StreamState::Paused),
            EngineState::Null | EngineState::Ready | EngineState::VoidPending => Some(
                StreamState::Stopped,
            ),
            EngineState::Unknown(_) => None,
        }
    }

    /// The transport state that the engine is in once it has granted
    /// `request` in this state.
    pub open spec fn after(self, request: Request) -> StreamState {
        match request {
            Request::Load(_) => self,
            Request::Start => StreamState::Playing,
            Request::Pause => StreamState::Paused,
            Request::Stop => StreamState::Stopped,
        }
    }

    /// The transport state that the engine is in once it has granted all of
    /// `plan` in order, starting in this state.
    pub open spec fn after_all(self, plan: Seq<Request>) -> StreamState
        decreases plan.len(),
    {
        if plan.len() == 0 {
            self
        } else {
            self.after_all(plan.drop_last()).after(plan.last())
        }
    }

    /// Reads the transport state off the state that the engine reports.
    /// A state outside the engine's known ones is not accepted.
    pub fn from(state: EngineState) -> (s: StreamState)
        requires
            !(state is Unknown),
        ensures
            Some(s) == Self::recognised(state),
    {
        match state {
            EngineState::Playing => StreamState::Playing,
            EngineState::Paused => StreamState::Paused,
            EngineState::Null | EngineState::Ready | EngineState::VoidPending => {
                StreamState::Stopped
            },
            EngineState::Unknown(_) => vstd::pervasive::unreached(),
        }
    }

    /// Whether the stream plays.
    pub fn is_playing(self) -> (r: bool)
        ensures
            r == (self == StreamState::Playing),
    {
        self == StreamState::Playing
    }

    /// The transport state after the engine has granted `action`.
    pub fn granted(self, action: &EngineAction) -> (s: StreamState)
        ensures
            s == self.after(action@),
    {
        match action {
            EngineAction::Load(_) => self,
            EngineAction::Start => StreamState::Playing,
            EngineAction::Pause => StreamState::Paused,
            EngineAction::Stop => StreamState::Stopped,
        }
    }
}

/// Granting the requests of `a + b` in order leads to the state that those
/// of `b` lead to from where those of `a` have led.
pub proof fn after_all_concat(state: StreamState, a: Seq<Request>, b: Seq<Request>)
    ensures
        state.after_all(a + b) == state.after_all(a).after_all(b),
    decreases b.len(),
{
    if b.len() == 0 {
        assert(a + b =~= a);
    } else {
        after_all_concat(state, a, b.drop_last());
        assert((a + b).drop_last() =~= a + b.drop_last());
    }
}

} // verus!
