use media_player::{EngineAction, EngineState, StreamEvent, StreamState, Track};

#[test]
fn playing_engine_is_playing() {
    assert_eq!(StreamState::from(EngineState::Playing), StreamState::Playing);
}

#[test]
fn paused_engine_is_paused() {
    assert_eq!(StreamState::from(EngineState::Paused), StreamState::Paused);
}

#[test]
fn idle_engine_is_stopped() {
    assert_eq!(StreamState::from(EngineState::Null), StreamState::Stopped);
    assert_eq!(StreamState::from(EngineState::Ready), StreamState::Stopped);
    assert_eq!(StreamState::from(EngineState::VoidPending), StreamState::Stopped);
}

#[test]
fn only_playing_is_playing() {
    assert!(StreamState::Playing.is_playing());
    assert!(!StreamState::Paused.is_playing());
    assert!(!StreamState::Stopped.is_playing());
}

#[test]
fn granted_requests_set_the_state() {
    let load = EngineAction::Load(String::from("file:///a.ogg"));
    for state in [StreamState::Playing, StreamState::Paused, StreamState::Stopped] {
        assert_eq!(state.granted(&load), state);
        assert_eq!(state.granted(&EngineAction::Start), StreamState::Playing);
        assert_eq!(state.granted(&EngineAction::Pause), StreamState::Paused);
        assert_eq!(state.granted(&EngineAction::Stop), StreamState::Stopped);
    }
}

#[test]
fn completion_is_the_only_event() {
    assert_eq!(StreamEvent::Completed, StreamEvent::Completed);
}

fn sample() -> Track {
    Track::new(
        7,
        3,
        String::from("Title"),
        String::from("Artist"),
        String::from("Album"),
        String::from("file:///music/title.ogg"),
    )
}

#[test]
fn track_holds_its_fields() {
    let t = sample();
    assert_eq!(t.id(), 7);
    assert_eq!(t.track(), 3);
    assert_eq!(t.title(), "Title");
    assert_eq!(t.artist(), "Artist");
    assert_eq!(t.album(), "Album");
    assert_eq!(t.file(), "file:///music/title.ogg");
}

#[test]
fn track_equality_is_structural() {
    assert_eq!(sample(), sample());
    assert_eq!(sample().clone(), sample());
    let other_id = Track::new(
        8,
        3,
        String::from("Title"),
        String::from("Artist"),
        String::from("Album"),
        String::from("file:///music/title.ogg"),
    );
    assert_ne!(sample(), other_id);
    let other_number = Track::new(
        7,
        4,
        String::from("Title"),
        String::from("Artist"),
        String::from("Album"),
        String::from("file:///music/title.ogg"),
    );
    assert_ne!(sample(), other_number);
    let other_title = Track::new(
        7,
        3,
        String::from("Other"),
        String::from("Artist"),
        String::from("Album"),
        String::from("file:///music/title.ogg"),
    );
    assert_ne!(sample(), other_title);
    let other_artist = Track::new(
        7,
        3,
        String::from("Title"),
        String::from("Other"),
        String::from("Album"),
        String::from("file:///music/title.ogg"),
    );
    assert_ne!(sample(), other_artist);
    let other_album = Track::new(
        7,
        3,
        String::from("Title"),
        String::from("Artist"),
        String::from("Other"),
        String::from("file:///music/title.ogg"),
    );
    assert_ne!(sample(), other_album);
    let other_file = Track::new(
        7,
        3,
        String::from("Title"),
        String::from("Artist"),
        String::from("Album"),
        String::from("file:///music/other.ogg"),
    );
    assert_ne!(sample(), other_file);
}
