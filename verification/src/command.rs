//! The commands that a player takes, and the listener that applies them one
//! by one until it is told to end.

use vstd::prelude::*;
use crate::player::{stop_is_idempotent, Player, PlayerView};
use crate::stream::{requests, EngineAction, Request, StreamState};
use crate::track::Track;

verus! {

/// A command to be passed to the media player.
#[derive(Debug)]
pub enum PlayerCommand {
    /// Put a track in to the play queue.
    Queue(Track),
    /// Start audio playback.
    Play,
    /// Pause audio playback, keeping the track position.
    Pause,
    /// Stop audio playback, resetting track position.
    Stop,
    /// Move to the next track in the queue.
    Next,
    /// Move to the previous track in the queue.
    Previous,
    /// Kill the audio player.
    Kill,
}

impl PlayerCommand {
    /// Whether the command may be given while the stream is in `state`:
    /// `Play` not while it plays, `Pause` not while it is paused, every
    /// other command always.
    pub open spec fn permitted(self, state: StreamState) -> bool {
        match self {
            PlayerCommand::Play => state != StreamState::Playing,
            PlayerCommand::Pause => state != StreamState::Paused,
            _ => true,
        }
    }

    /// Whether the player asks the engine for its state to apply the
    /// command. `Queue` and `Kill` are applied without.
    pub open spec fn observes(self) -> bool {
        !(self is Queue || self is Kill)
    }

    /// Whether the command may be given while the stream is in `state`.
    pub fn is_permitted(&self, state: StreamState) -> (r: bool)
        ensures
            r == self.permitted(state),
    {
        match self {
            PlayerCommand::Play => state != StreamState::Playing,
            PlayerCommand::Pause => state != StreamState::Paused,
            _ => true,
        }
    }

    /// Whether the engine's state is needed to apply the command.
    pub fn needs_state(&self) -> (r: bool)
        ensures
            r == self.observes(),
    {
        match self {
            PlayerCommand::Queue(_) => false,
            PlayerCommand::Kill => false,
            _ => true,
        }
    }
}

/// The mathematical model of a listener: its player, and whether it still
/// takes commands.
pub ghost struct ListenerView {
    pub player: PlayerView,
    pub running: bool,
}

impl ListenerView {
    /// The listener's player is well formed.
    pub open spec fn wf(self) -> bool {
        self.player.wf()
    }

    /// Whether the listener may be handed `cmd` while the stream is in
    /// `state`. A listener that has ended ignores whatever it is handed.
    pub open spec fn accepts(self, cmd: Option<PlayerCommand>, state: StreamState) -> bool {
        match cmd {
            Some(c) => !self.running || c.permitted(state),
            None => true,
        }
    }

    /// The listener after one turn, in which it was handed `cmd`, or nothing,
    /// while the stream was in `state`.
    pub open spec fn step(self, cmd: Option<PlayerCommand>, state: StreamState) -> ListenerView {
        if !self.running {
            self
        } else {
            match cmd {
                Some(PlayerCommand::Queue(track)) => ListenerView {
                    player: self.player.enqueue(track),
                    running: true,
                },
                Some(PlayerCommand::Next) => ListenerView {
                    player: self.player.next_track(),
                    running: true,
                },
                Some(PlayerCommand::Previous) => ListenerView {
                    player: self.player.previous_track(),
                    running: true,
                },
                Some(PlayerCommand::Kill) => ListenerView { player: self.player, running: false },
                _ => self,
            }
        }
    }

    /// The requests to the engine that one turn gives rise to.
    pub open spec fn plan(self, cmd: Option<PlayerCommand>, state: StreamState) -> Seq<Request> {
        if !self.running {
            Seq::empty()
        } else {
            match cmd {
                Some(PlayerCommand::Play) => self.player.play_plan(),
                Some(PlayerCommand::Pause) => PlayerView::pause_plan(),
                Some(PlayerCommand::Stop) => PlayerView::stop_plan(state),
                Some(PlayerCommand::Next) => self.player.next_plan(state),
                Some(PlayerCommand::Previous) => self.player.previous_plan(state),
                _ => Seq::empty(),
            }
        }
    }
}

/// A player that takes its commands one per turn, in the order in which they
/// are handed to it, until it is handed `Kill`.
#[derive(Debug)]
pub struct EventListener {
    player: Player,
    running: bool,
}

impl View for EventListener {
    type V = ListenerView;

    closed spec fn view(&self) -> ListenerView {
        ListenerView { player: self.player@, running: self.running }
    }
}

impl Player {
    /// Turns the player into a listener that applies the commands handed to
    /// it, one per turn.
    pub fn event_listener(self) -> (l: EventListener)
        ensures
            l@ == (ListenerView { player: self@, running: true }),
    {
        EventListener { player: self, running: true }
    }
}

impl EventListener {
    /// The listener's player.
    pub fn player(&self) -> (p: &Player)
        ensures
            p@ == self@.player,
    {
        &self.player
    }

    /// Whether the listener still takes commands.
    pub fn is_running(&self) -> (r: bool)
        ensures
            r == self@.running,
    {
        self.running
    }

    /// One turn of the listener. `cmd` is the command that is pending, if
    /// one is, and `state` the state of the stream as the engine reports it
    /// now (it is not looked at where the command does not observe it).
    ///
    /// Returns the requests to hand to the engine, in order, and whether
    /// there is to be another turn. After `Kill` there is none: a listener
    /// that has ended leaves its player alone and requests nothing.
    pub fn tick(&mut self, cmd: Option<PlayerCommand>, state: StreamState) -> (r: (
        Vec<EngineAction>,
        bool,
    ))
        requires
            old(self)@.accepts(cmd, state),
        ensures
            final(self)@ == old(self)@.step(cmd, state),
            requests(r.0@) == old(self)@.plan(cmd, state),
            r.1 == final(self)@.running,
    {
        if !self.running {
            let plan: Vec<EngineAction> = Vec::new();
            assert(requests(plan@) =~= Seq::empty());
            return (plan, false);
        }
        match cmd {
            Some(PlayerCommand::Queue(track)) => {
                self.player.queue(track);
                let plan: Vec<EngineAction> = Vec::new();
                assert(requests(plan@) =~= Seq::empty());
                (plan, true)
            },
            Some(PlayerCommand::Play) => (self.player.play(state), true),
            Some(PlayerCommand::Pause) => (self.player.pause(state), true),
            Some(PlayerCommand::Stop) => (self.player.stop(state), true),
            Some(PlayerCommand::Next) => (self.player.next_track(state), true),
            Some(PlayerCommand::Previous) => (self.player.previous_track(state), true),
            Some(PlayerCommand::Kill) => {
                self.running = false;
                let plan: Vec<EngineAction> = Vec::new();
                assert(requests(plan@) =~= Seq::empty());
                (plan, false)
            },
            None => {
                let plan: Vec<EngineAction> = Vec::new();
                assert(requests(plan@) =~= Seq::empty());
                (plan, true)
            },
        }
    }
}

/// A listener together with the engine that it drives: the engine grants
/// every request, and its state is looked up afresh before each command.
pub ghost struct Session {
    pub listener: ListenerView,
    pub engine: StreamState,
}

impl Session {
    /// The session after `cmd` was handed to the listener and the engine has
    /// granted the requests of that turn.
    pub open spec fn feed(self, cmd: PlayerCommand) -> Session {
        Session {
            listener: self.listener.step(Some(cmd), self.engine),
            engine: self.engine.after_all(self.listener.plan(Some(cmd), self.engine)),
        }
    }

    /// The session after the commands of `cmds` were handed over in order.
    pub open spec fn feed_all(self, cmds: Seq<PlayerCommand>) -> Session
        decreases cmds.len(),
    {
        if cmds.len() == 0 {
            self
        } else {
            self.feed_all(cmds.drop_last()).feed(cmds.last())
        }
    }
}

/// A turn keeps a well-formed listener well formed.
pub proof fn step_keeps_wf(l: ListenerView, cmd: Option<PlayerCommand>, state: StreamState)
    requires
        l.wf(),
    ensures
        l.step(cmd, state).wf(),
{
}

/// A turn without a pending command changes nothing and requests nothing,
/// and a command that does not observe the engine has the same effect
/// whatever state the stream is in.
pub proof fn unobserved_state_is_ignored(
    l: ListenerView,
    cmd: PlayerCommand,
    s1: StreamState,
    s2: StreamState,
)
    requires
        !cmd.observes(),
    ensures
        l.step(None, s1) == l,
        l.plan(None, s1) == Seq::<Request>::empty(),
        l.step(Some(cmd), s1) == l.step(Some(cmd), s2),
        l.plan(Some(cmd), s1) == l.plan(Some(cmd), s2),
{
}

/// `Kill` ends the listener and leaves its player as it was. From then on no
/// command changes the listener or gives rise to a request.
pub proof fn kill_is_terminal(
    l: ListenerView,
    state: StreamState,
    later: Option<PlayerCommand>,
    later_state: StreamState,
)
    ensures
        !l.step(Some(PlayerCommand::Kill), state).running,
        l.step(Some(PlayerCommand::Kill), state).player == l.player,
        l.plan(Some(PlayerCommand::Kill), state) == Seq::<Request>::empty(),
        l.step(Some(PlayerCommand::Kill), state).step(later, later_state) == l.step(
            Some(PlayerCommand::Kill),
            state,
        ),
        l.step(Some(PlayerCommand::Kill), state).plan(later, later_state) == Seq::<
            Request,
        >::empty(),
{
}

/// A session whose listener has ended stays as it is, whatever commands
/// follow.
pub proof fn ended_session_stays(s: Session, cmds: Seq<PlayerCommand>)
    requires
        !s.listener.running,
    ensures
        s.feed_all(cmds) == s,
    decreases cmds.len(),
{
    if cmds.len() > 0 {
        ended_session_stays(s, cmds.drop_last());
        assert(s.engine.after_all(Seq::<Request>::empty()) == s.engine);
    }
}

/// The commands of `before + after`, handed over in order, lead to the
/// session that `after` leads to from where `before` has led.
pub proof fn feed_all_concat(s: Session, before: Seq<PlayerCommand>, after: Seq<PlayerCommand>)
    ensures
        s.feed_all(before + after) == s.feed_all(before).feed_all(after),
    decreases after.len(),
{
    if after.len() == 0 {
        assert(before + after =~= before);
    } else {
        feed_all_concat(s, before, after.drop_last());
        assert((before + after).drop_last() =~= before + after.drop_last());
    }
}

/// No command that follows a `Kill` is applied: the commands up to the
/// `Kill`, and any commands after it, leave the session where the commands up
/// to the `Kill` alone leave it.
pub proof fn kill_drains_nothing(
    s: Session,
    before: Seq<PlayerCommand>,
    after: Seq<PlayerCommand>,
)
    ensures
        !s.feed_all(before.push(PlayerCommand::Kill)).listener.running,
        s.feed_all(before.push(PlayerCommand::Kill) + after) == s.feed_all(
            before.push(PlayerCommand::Kill),
        ),
{
    let upto = before.push(PlayerCommand::Kill);
    assert(upto.drop_last() =~= before);
    feed_all_concat(s, upto, after);
    ended_session_stays(s.feed_all(upto), after);
}

/// `Stop` never moves the queue. Handed to a session whose stream does not
/// play it changes nothing at all, so that a second `Stop` after a first is
/// a no-op.
pub proof fn stop_twice_is_stop_once(s: Session)
    ensures
        s.feed(PlayerCommand::Stop).listener == s.listener,
        s.engine != StreamState::Playing ==> s.feed(PlayerCommand::Stop) == s,
        s.feed(PlayerCommand::Stop).feed(PlayerCommand::Stop) == s.feed(PlayerCommand::Stop),
{
    stop_is_idempotent(s.engine);
    stop_is_idempotent(s.feed(PlayerCommand::Stop).engine);
}

} // verus!
