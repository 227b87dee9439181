use media_player::{EngineAction, EventListener, Player, PlayerCommand, StreamState, Track};

fn track(id: u64, name: &str) -> Track {
    Track::new(
        id,
        1,
        String::from(name),
        String::from("Artist"),
        String::from("Album"),
        format!("file:///music/{}.ogg", name),
    )
}

fn load(name: &str) -> EngineAction {
    EngineAction::Load(format!("file:///music/{}.ogg", name))
}

/// A listener with a stand-in for the engine, which grants every request.
struct Rig {
    listener: EventListener,
    engine: StreamState,
    source: Option<String>,
    starts: usize,
}

impl Rig {
    fn new(player: Player) -> Rig {
        Rig { listener: player.event_listener(), engine: StreamState::Stopped, source: None, starts: 0 }
    }

    fn feed(&mut self, cmd: PlayerCommand) -> (Vec<EngineAction>, bool) {
        assert!(!self.listener.is_running() || cmd.is_permitted(self.engine));
        let (plan, keep_running) = self.listener.tick(Some(cmd), self.engine);
        for action in &plan {
            self.engine = self.engine.granted(action);
            match action {
                EngineAction::Load(uri) => self.source = Some(uri.clone()),
                EngineAction::Start => self.starts += 1,
                _ => {}
            }
        }
        (plan, keep_running)
    }
}

fn rig_with_a_and_b(looping: bool) -> Rig {
    let mut player = Player::new();
    player.set_looping(looping);
    let mut rig = Rig::new(player);
    rig.feed(PlayerCommand::Queue(track(0, "a")));
    rig.feed(PlayerCommand::Queue(track(1, "b")));
    rig
}

#[test]
fn event_listener_keeps_the_player() {
    let mut player = Player::new();
    player.queue(track(0, "a"));
    player.set_looping(true);
    let listener = player.event_listener();
    assert!(listener.is_running());
    assert!(listener.player().is_looping());
    assert_eq!(listener.player().current_track(), Some(&track(0, "a")));
}

#[test]
fn tick_without_command_changes_nothing() {
    let mut player = Player::new();
    player.queue(track(0, "a"));
    let mut listener = player.event_listener();
    let (plan, keep_running) = listener.tick(None, StreamState::Playing);
    assert_eq!(plan, vec![]);
    assert!(keep_running);
    assert_eq!(listener.player().current_track(), Some(&track(0, "a")));
}

#[test]
fn queue_command_appends() {
    let mut rig = Rig::new(Player::new());
    let (plan, keep_running) = rig.feed(PlayerCommand::Queue(track(0, "a")));
    assert_eq!(plan, vec![]);
    assert!(keep_running);
    assert_eq!(rig.listener.player().current_track(), Some(&track(0, "a")));
}

#[test]
fn play_pause_stop_commands() {
    let mut rig = rig_with_a_and_b(false);
    assert_eq!(rig.feed(PlayerCommand::Play), (vec![load("a"), EngineAction::Start], true));
    assert_eq!(rig.engine, StreamState::Playing);
    assert_eq!(rig.feed(PlayerCommand::Pause), (vec![EngineAction::Pause], true));
    assert_eq!(rig.engine, StreamState::Paused);
    assert_eq!(rig.feed(PlayerCommand::Stop), (vec![], true));
    assert_eq!(rig.engine, StreamState::Paused);
    assert_eq!(rig.feed(PlayerCommand::Play), (vec![load("a"), EngineAction::Start], true));
    assert_eq!(rig.feed(PlayerCommand::Stop), (vec![EngineAction::Stop], true));
    assert_eq!(rig.engine, StreamState::Stopped);
}

#[test]
fn stop_command_on_stopped_player_is_a_no_op() {
    let mut rig = rig_with_a_and_b(false);
    assert_eq!(rig.engine, StreamState::Stopped);
    assert_eq!(rig.feed(PlayerCommand::Stop), (vec![], true));
    assert_eq!(rig.feed(PlayerCommand::Stop), (vec![], true));
    assert_eq!(rig.engine, StreamState::Stopped);
    assert_eq!(rig.listener.player().current_track(), Some(&track(0, "a")));
    assert!(rig.listener.is_running());
}

#[test]
fn looping_restarts_from_first_track() {
    let mut rig = rig_with_a_and_b(true);
    rig.feed(PlayerCommand::Play);
    assert_eq!(rig.source, Some(String::from("file:///music/a.ogg")));
    rig.feed(PlayerCommand::Next);
    assert_eq!(rig.engine, StreamState::Playing);
    assert_eq!(rig.source, Some(String::from("file:///music/b.ogg")));
    assert_eq!(rig.listener.player().current_track(), Some(&track(1, "b")));
    let (plan, keep_running) = rig.feed(PlayerCommand::Next);
    assert_eq!(plan, vec![EngineAction::Stop, load("a"), EngineAction::Start]);
    assert!(keep_running);
    assert_eq!(rig.engine, StreamState::Playing);
    assert_eq!(rig.source, Some(String::from("file:///music/a.ogg")));
    assert_eq!(rig.listener.player().current_track(), Some(&track(0, "a")));
    assert_eq!(rig.starts, 3);
}

#[test]
fn without_looping_next_after_last_track_stops() {
    let mut rig = rig_with_a_and_b(false);
    rig.feed(PlayerCommand::Play);
    rig.feed(PlayerCommand::Next);
    assert_eq!(rig.source, Some(String::from("file:///music/b.ogg")));
    assert_eq!(rig.starts, 2);
    let (plan, keep_running) = rig.feed(PlayerCommand::Next);
    assert_eq!(plan, vec![EngineAction::Stop]);
    assert!(keep_running);
    assert_eq!(rig.engine, StreamState::Stopped);
    assert_eq!(rig.starts, 2);
    assert_eq!(rig.listener.player().current_track(), Some(&track(1, "b")));
}

#[test]
fn previous_after_play_on_first_track_restarts_it() {
    let mut rig = rig_with_a_and_b(false);
    rig.feed(PlayerCommand::Play);
    let (plan, _) = rig.feed(PlayerCommand::Previous);
    assert_eq!(plan, vec![EngineAction::Stop, load("a"), EngineAction::Start]);
    assert_eq!(rig.engine, StreamState::Playing);
    assert_eq!(rig.source, Some(String::from("file:///music/a.ogg")));
    assert_eq!(rig.listener.player().current_track(), Some(&track(0, "a")));
}

#[test]
fn kill_ends_the_listener_and_later_commands_are_not_applied() {
    let mut rig = Rig::new(Player::new());
    assert_eq!(rig.feed(PlayerCommand::Queue(track(0, "a"))), (vec![], true));
    assert_eq!(rig.feed(PlayerCommand::Kill), (vec![], false));
    assert!(!rig.listener.is_running());
    assert_eq!(rig.feed(PlayerCommand::Play), (vec![], false));
    assert_eq!(rig.engine, StreamState::Stopped);
    assert_eq!(rig.starts, 0);
    assert_eq!(rig.source, None);
    assert_eq!(rig.feed(PlayerCommand::Queue(track(1, "b"))), (vec![], false));
    assert_eq!(rig.feed(PlayerCommand::Next), (vec![], false));
    assert_eq!(rig.listener.player().current_track(), Some(&track(0, "a")));
}

#[test]
fn play_is_not_permitted_while_playing() {
    assert!(!PlayerCommand::Play.is_permitted(StreamState::Playing));
    assert!(PlayerCommand::Play.is_permitted(StreamState::Paused));
    assert!(PlayerCommand::Play.is_permitted(StreamState::Stopped));
}

#[test]
fn pause_is_not_permitted_while_paused() {
    assert!(!PlayerCommand::Pause.is_permitted(StreamState::Paused));
    assert!(PlayerCommand::Pause.is_permitted(StreamState::Playing));
    assert!(PlayerCommand::Pause.is_permitted(StreamState::Stopped));
}

#[test]
fn other_commands_are_always_permitted() {
    for state in [StreamState::Playing, StreamState::Paused, StreamState::Stopped] {
        assert!(PlayerCommand::Queue(track(0, "a")).is_permitted(state));
        assert!(PlayerCommand::Stop.is_permitted(state));
        assert!(PlayerCommand::Next.is_permitted(state));
        assert!(PlayerCommand::Previous.is_permitted(state));
        assert!(PlayerCommand::Kill.is_permitted(state));
    }
}

#[test]
fn queue_and_kill_need_no_engine_state() {
    assert!(!PlayerCommand::Queue(track(0, "a")).needs_state());
    assert!(!PlayerCommand::Kill.needs_state());
    assert!(PlayerCommand::Play.needs_state());
    assert!(PlayerCommand::Pause.needs_state());
    assert!(PlayerCommand::Stop.needs_state());
    assert!(PlayerCommand::Next.needs_state());
    assert!(PlayerCommand::Previous.needs_state());
}
