//! The player: it owns the play queue and decides, for each transport
//! command and the transport state that the engine reports, how the queue
//! moves and what the engine is asked to do.

use vstd::prelude::*;
use crate::play_queue::{referent, PlayQueue, QueueView};
use crate::stream::{after_all_concat, requests, EngineAction, Request, StreamState};
use crate::track::Track;

verus! {

/// The mathematical model of a player: whether it loops, and its queue.
pub ghost struct PlayerView {
    pub is_looping: bool,
    pub queue: QueueView<Track>,
}

impl PlayerView {
    /// The player's queue is well formed.
    pub open spec fn wf(self) -> bool {
        self.queue.wf()
    }

    /// The track under the queue's cursor, if there is one.
    pub open spec fn current_track(self) -> Option<Track> {
        self.queue.current()
    }

    /// The player with `track` at the end of its queue.
    pub open spec fn enqueue(self, track: Track) -> PlayerView {
        PlayerView { is_looping: self.is_looping, queue: self.queue.append(track) }
    }

    /// The requests that begin playback of the current track: its URI is
    /// loaded, then playback starts. Without a current track there are none.
    pub open spec fn play_plan(self) -> Seq<Request> {
        match self.queue.current() {
            Some(track) => seq![Request::Load(track@.file), Request::Start],
            None => Seq::empty(),
        }
    }

    /// The request that pauses playback.
    pub open spec fn pause_plan() -> Seq<Request> {
        seq![Request::Pause]
    }

    /// The requests that stop playback: one where the stream plays, none
    /// otherwise.
    pub open spec fn stop_plan(state: StreamState) -> Seq<Request> {
        if state == StreamState::Playing {
            seq![Request::Stop]
        } else {
            Seq::empty()
        }
    }

    /// Whether a move to the next track ends in playback: a track follows
    /// the current one, or the player loops.
    pub open spec fn plays_after_next(self) -> bool {
        self.queue.has_next() || self.is_looping
    }

    /// The player after a move to the next track: the cursor moves on where
    /// a track follows, goes back to the first where none follows and the
    /// player loops, and stays otherwise.
    pub open spec fn next_track(self) -> PlayerView {
        PlayerView {
            is_looping: self.is_looping,
            queue: if self.queue.has_next() {
                self.queue.next()
            } else if self.is_looping {
                self.queue.reset()
            } else {
                self.queue
            },
        }
    }

    /// The requests of a move to the next track: playback stops, and where
    /// the move ends in playback the track that is then current begins.
    pub open spec fn next_plan(self, state: StreamState) -> Seq<Request> {
        Self::stop_plan(state) + if self.plays_after_next() {
            self.next_track().play_plan()
        } else {
            Seq::empty()
        }
    }

    /// The player after a move to the previous track: the cursor moves back
    /// where a track precedes, and stays on the first otherwise.
    pub open spec fn previous_track(self) -> PlayerView {
        PlayerView { is_looping: self.is_looping, queue: self.queue.previous() }
    }

    /// The requests of a move to the previous track: playback stops, and the
    /// track that is then current begins.
    pub open spec fn previous_plan(self, state: StreamState) -> Seq<Request> {
        Self::stop_plan(state) + self.previous_track().play_plan()
    }
}

/// A player of queued tracks. It holds no transport state of its own: each
/// operation takes the state that the engine reports at that moment, and
/// returns the requests to hand to the engine, in order.
#[derive(Debug)]
pub struct Player {
    is_looping: bool,
    play_queue: PlayQueue<Track>,
}

impl View for Player {
    type V = PlayerView;

    closed spec fn view(&self) -> PlayerView {
        PlayerView { is_looping: self.is_looping, queue: self.play_queue@ }
    }
}

impl Clone for Player {
    /// A player that loops as this one does, with clones of its tracks in
    /// their order and the cursor at the same position.
    fn clone(&self) -> (p: Player)
        ensures
            p@.wf(),
            p@.is_looping == self@.is_looping,
            p@.queue.cursor == self@.queue.cursor,
            p@.queue.items.len() == self@.queue.items.len(),
            forall|i: int|
                0 <= i < self@.queue.items.len() ==> (#[trigger] p@.queue.items[i])@
                    == self@.queue.items[i]@,
    {
        Player { is_looping: self.is_looping, play_queue: self.play_queue.clone() }
    }
}

impl Player {
    /// Whether the queue starts again from its first track when a move to
    /// the next track finds none.
    pub fn is_looping(&self) -> (r: bool)
        ensures
            r == self@.is_looping,
    {
        self.is_looping
    }

    /// Makes the player loop, or not. The queue is unchanged.
    pub fn set_looping(&mut self, is_looping: bool)
        ensures
            final(self)@ == (PlayerView { is_looping, queue: old(self)@.queue }),
    {
        self.is_looping = is_looping;
    }

    /// A player with no queued tracks that does not loop.
    pub fn new() -> (p: Player)
        ensures
            p@ == (PlayerView { is_looping: false, queue: QueueView::empty() }),
    {
        Player { is_looping: false, play_queue: PlayQueue::new() }
    }

    /// The current track of the queue, whether or not it plays.
    pub fn current_track(&self) -> (r: Option<&Track>)
        ensures
            self@.wf(),
            referent(r) == self@.current_track(),
    {
        self.play_queue.current()
    }

    /// Adds `track` at the end of the play queue.
    pub fn queue(&mut self, track: Track)
        ensures
            final(self)@ == old(self)@.enqueue(track),
            final(self)@.wf(),
    {
        self.play_queue.append(track);
    }

    /// Adds to `plan` the requests that begin playback of the current track.
    fn push_play(&self, plan: &mut Vec<EngineAction>)
        ensures
            requests(final(plan)@) == requests(old(plan)@) + self@.play_plan(),
    {
        match self.play_queue.current() {
            Some(track) => {
                let uri: String = track.file().to_owned();
                plan.push(EngineAction::Load(uri));
                plan.push(EngineAction::Start);
                assert(requests(plan@) =~= requests(old(plan)@) + self@.play_plan());
            },
            None => {
                assert(requests(plan@) =~= requests(old(plan)@) + self@.play_plan());
            },
        }
    }

    /// Adds to `plan` the request that stops playback, where the stream plays.
    fn push_stop(plan: &mut Vec<EngineAction>, state: StreamState)
        ensures
            requests(final(plan)@) == requests(old(plan)@) + PlayerView::stop_plan(state),
    {
        if state.is_playing() {
            plan.push(EngineAction::Stop);
        }
        assert(requests(plan@) =~= requests(old(plan)@) + PlayerView::stop_plan(state));
    }

    /// Begins playback of the current track: the requests load its URI and
    /// start the stream. Without a current track nothing is requested.
    /// The stream must not be playing already.
    pub fn play(&self, state: StreamState) -> (plan: Vec<EngineAction>)
        requires
            state != StreamState::Playing,
        ensures
            requests(plan@) == self@.play_plan(),
    {
        let mut plan: Vec<EngineAction> = Vec::new();
        self.push_play(&mut plan);
        assert(requests(plan@) =~= self@.play_plan());
        plan
    }

    /// Pauses playback and keeps the position in the stream. The stream must
    /// not be paused already.
    pub fn pause(&self, state: StreamState) -> (plan: Vec<EngineAction>)
        requires
            state != StreamState::Paused,
        ensures
            requests(plan@) == PlayerView::pause_plan(),
    {
        let mut plan: Vec<EngineAction> = Vec::new();
        plan.push(EngineAction::Pause);
        assert(requests(plan@) =~= PlayerView::pause_plan());
        plan
    }

    /// Stops playback where the stream plays; otherwise nothing is requested.
    pub fn stop(&self, state: StreamState) -> (plan: Vec<EngineAction>)
        ensures
            requests(plan@) == PlayerView::stop_plan(state),
    {
        let mut plan: Vec<EngineAction> = Vec::new();
        Self::push_stop(&mut plan, state);
        assert(requests(plan@) =~= PlayerView::stop_plan(state));
        plan
    }

    /// Stops the current track and plays the next one in the queue. Where no
    /// track follows, a looping player starts again from the first track,
    /// and any other stays stopped on the last one.
    pub fn next_track(&mut self, state: StreamState) -> (plan: Vec<EngineAction>)
        ensures
            final(self)@ == old(self)@.next_track(),
            final(self)@.wf(),
            requests(plan@) == old(self)@.next_plan(state),
    {
        let mut plan: Vec<EngineAction> = Vec::new();
        Self::push_stop(&mut plan, state);
        assert(requests(plan@) =~= PlayerView::stop_plan(state));
        let moved: bool = self.play_queue.next().is_some();
        if !moved {
            if self.is_looping {
                self.play_queue.reset();
            } else {
                assert(requests(plan@) =~= old(self)@.next_plan(state));
                return plan;
            }
        }
        self.push_play(&mut plan);
        plan
    }

    /// Stops the current track and plays the previous one in the queue. On
    /// the first track, that track starts again from its beginning.
    pub fn previous_track(&mut self, state: StreamState) -> (plan: Vec<EngineAction>)
        ensures
            final(self)@ == old(self)@.previous_track(),
            final(self)@.wf(),
            requests(plan@) == old(self)@.previous_plan(state),
    {
        let mut plan: Vec<EngineAction> = Vec::new();
        Self::push_stop(&mut plan, state);
        assert(requests(plan@) =~= PlayerView::stop_plan(state));
        self.play_queue.previous();
        self.push_play(&mut plan);
        plan
    }
}

/// Stopping leaves a stream that does not play, so that the track that a
/// move to another track begins never meets a stream that is playing.
/// Stopping a stream that does not play requests nothing: a second stop
/// after a first is a no-op.
pub proof fn stop_is_idempotent(state: StreamState)
    ensures
        state != StreamState::Playing ==> PlayerView::stop_plan(state) == Seq::<Request>::empty(),
        state.after_all(PlayerView::stop_plan(state)) != StreamState::Playing,
        state == StreamState::Playing ==> state.after_all(PlayerView::stop_plan(state))
            == StreamState::Stopped,
        PlayerView::stop_plan(state.after_all(PlayerView::stop_plan(state))) == Seq::<
            Request,
        >::empty(),
{
    let plan = PlayerView::stop_plan(state);
    if state == StreamState::Playing {
        assert(plan.drop_last() =~= Seq::<Request>::empty());
        assert(plan.last() == Request::Stop);
    }
}

/// Where the player has a current track, the requests that begin it leave
/// the stream playing; without one the stream stays as it is.
pub proof fn play_starts_current(p: PlayerView, state: StreamState)
    requires
        p.wf(),
    ensures
        p.current_track() is Some ==> state.after_all(p.play_plan()) == StreamState::Playing,
        p.current_track() is None ==> state.after_all(p.play_plan()) == state,
{
    if p.current_track() is Some {
        assert(p.play_plan().last() == Request::Start);
    }
}

/// A move to the next track from any but the last track makes the track
/// that follows the current one, and leaves the stream playing it.
pub proof fn next_plays_following(p: PlayerView, state: StreamState)
    requires
        p.wf(),
        p.queue.has_next(),
    ensures
        p.next_track().queue.cursor == Some(p.queue.cursor->0 + 1),
        p.next_track().queue.items == p.queue.items,
        p.next_plan(state) == PlayerView::stop_plan(state) + seq![
            Request::Load(p.queue.items[p.queue.cursor->0 + 1]@.file),
            Request::Start,
        ],
        state.after_all(p.next_plan(state)) == StreamState::Playing,
{
    after_all_concat(state, PlayerView::stop_plan(state), p.next_track().play_plan());
    play_starts_current(p.next_track(), state.after_all(PlayerView::stop_plan(state)));
}

/// A move to the next track from the last track of a looping player goes
/// back to the first track and leaves the stream playing it.
pub proof fn next_at_last_loops(p: PlayerView, state: StreamState)
    requires
        p.wf(),
        p.is_looping,
        p.queue.items.len() > 0,
        !p.queue.has_next(),
    ensures
        p.next_track().queue.cursor == Some(0int),
        p.next_track().queue.items == p.queue.items,
        p.next_plan(state) == PlayerView::stop_plan(state) + seq![
            Request::Load(p.queue.items[0]@.file),
            Request::Start,
        ],
        state.after_all(p.next_plan(state)) == StreamState::Playing,
{
    after_all_concat(state, PlayerView::stop_plan(state), p.next_track().play_plan());
    play_starts_current(p.next_track(), state.after_all(PlayerView::stop_plan(state)));
}

/// A move to the next track from the last track of a player that does not
/// loop leaves the cursor where it is and begins nothing: a stream that
/// played is stopped, and no stream plays afterwards.
pub proof fn next_at_last_stops(p: PlayerView, state: StreamState)
    requires
        p.wf(),
        !p.is_looping,
        !p.queue.has_next(),
    ensures
        p.next_track() == p,
        p.next_plan(state) == PlayerView::stop_plan(state),
        state.after_all(p.next_plan(state)) != StreamState::Playing,
        state == StreamState::Playing ==> state.after_all(p.next_plan(state))
            == StreamState::Stopped,
{
    assert(p.next_plan(state) =~= PlayerView::stop_plan(state));
    stop_is_idempotent(state);
}

/// A move to the previous track from the first track leaves the cursor on
/// it and begins that track again; from any other track it begins the one
/// before. Either way the stream then plays.
pub proof fn previous_plays_preceding(p: PlayerView, state: StreamState)
    requires
        p.wf(),
        p.queue.items.len() > 0,
    ensures
        p.queue.cursor == Some(0int) ==> p.previous_track() == p,
        p.previous_track().queue.items == p.queue.items,
        p.previous_track().queue.cursor == Some(
            if p.queue.cursor->0 > 0 {
                p.queue.cursor->0 - 1
            } else {
                0int
            },
        ),
        p.previous_plan(state) == PlayerView::stop_plan(state) + seq![
            Request::Load(p.previous_track().queue.current()->0@.file),
            Request::Start,
        ],
        state.after_all(p.previous_plan(state)) == StreamState::Playing,
{
    after_all_concat(state, PlayerView::stop_plan(state), p.previous_track().play_plan());
    play_starts_current(p.previous_track(), state.after_all(PlayerView::stop_plan(state)));
}

} // verus!
