use vh1_bot::commands::{complete_join, enqueue_loaded, join, leave, queue, remove, repeat};
use vh1_bot::events::{
    advance, ready_event, replay_loaded, track_end, track_start, ReplayOutcome, TrackEndReason,
    TrackEndStep,
};
use vh1_bot::ids::{ChannelId, GuildId, UserId};
use vh1_bot::registry::SessionRegistry;
use vh1_bot::session::ConnectionState;
use vh1_bot::track::{QueuedTrack, Track, TrackLoadResult};

const G: GuildId = GuildId(1);
const OTHER: GuildId = GuildId(2);
const TEXT: ChannelId = ChannelId(100);
const USER: UserId = UserId(42);

fn loaded(name: &str) -> Track {
    Track {
        encoded: format!("handle-{name}"),
        title: name.to_string(),
        author: "someone".to_string(),
        uri: Some(format!("http://example/{name}.mp3")),
    }
}

fn released(name: &str) -> Track {
    Track { encoded: String::new(), ..loaded(name) }
}

fn by(track: Track, requester: u64) -> QueuedTrack {
    QueuedTrack { track, requester_id: UserId(requester) }
}

fn connected_with(names: &[&str], repeat_on: bool) -> SessionRegistry {
    let mut registry = SessionRegistry::new();
    let _ = join(&mut registry, G, TEXT, Some(ChannelId(200)), None);
    assert_eq!(complete_join(&mut registry, G, Ok(())), Ok(true));
    let tracks = names.iter().map(|n| loaded(n)).collect();
    let playlist = TrackLoadResult::Playlist { name: "list".to_string(), tracks };
    assert_eq!(enqueue_loaded(&mut registry, G, USER, playlist), Ok(names.len()));
    if repeat_on {
        assert_eq!(repeat(&mut registry, G), Ok(true));
    }
    registry
}

fn titles(registry: &SessionRegistry) -> Vec<String> {
    queue(registry, G, usize::MAX).unwrap().into_iter().map(|t| t.track.title).collect()
}

const REASONS_WITHOUT_REPLAY: [TrackEndReason; 4] = [
    TrackEndReason::LoadFailed,
    TrackEndReason::Stopped,
    TrackEndReason::Replaced,
    TrackEndReason::Cleanup,
];

#[test]
fn track_start_is_announced_in_the_reply_channel() {
    let registry = connected_with(&[], false);
    assert_eq!(track_start(&registry, G), Some(TEXT));
}

#[test]
fn track_start_for_unknown_guild_is_dropped() {
    let registry = connected_with(&[], false);
    assert_eq!(track_start(&registry, OTHER), None);
    let mut registry = registry;
    assert_eq!(leave(&mut registry, G), vh1_bot::commands::LeaveStep::Teardown);
    assert_eq!(track_start(&registry, G), None);
}

#[test]
fn finished_track_with_repeat_goes_back_to_the_head() {
    let mut registry = connected_with(&["a", "b"], true);
    let ended = by(loaded("t"), 7);
    let step = track_end(&mut registry, G, &ended, TrackEndReason::Finished);
    assert_eq!(step, TrackEndStep::Requeued);
    let now = queue(&registry, G, 10).unwrap();
    assert_eq!(now.len(), 3);
    assert_eq!(now[0], ended);
    assert_eq!(titles(&registry), vec!["t", "a", "b"]);
}

#[test]
fn finished_track_without_handle_is_loaded_again_from_its_address() {
    let mut registry = connected_with(&["a"], true);
    let ended = by(released("t"), 7);
    let step = track_end(&mut registry, G, &ended, TrackEndReason::Finished);
    assert_eq!(step, TrackEndStep::Reload { query: "http://example/t.mp3".to_string() });
    assert_eq!(titles(&registry), vec!["a"]);
    let answer = TrackLoadResult::Track(loaded("t"));
    assert_eq!(replay_loaded(&mut registry, G, UserId(7), answer), ReplayOutcome::Queued);
    let now = queue(&registry, G, 10).unwrap();
    assert_eq!(now[0], by(loaded("t"), 7));
    assert_eq!(now[0].track.title, "t");
    assert_eq!(now[0].track.author, "someone");
    assert_eq!(titles(&registry), vec!["t", "a"]);
}

#[test]
fn finished_track_without_handle_and_address_is_not_replayed() {
    let mut registry = connected_with(&["a"], true);
    let ended = by(Track { uri: None, ..released("t") }, 7);
    let step = track_end(&mut registry, G, &ended, TrackEndReason::Finished);
    assert_eq!(step, TrackEndStep::NoReplay);
    assert_eq!(titles(&registry), vec!["a"]);
}

#[test]
fn no_replay_with_repeat_off() {
    let mut registry = connected_with(&["a"], false);
    let step = track_end(&mut registry, G, &by(loaded("t"), 7), TrackEndReason::Finished);
    assert_eq!(step, TrackEndStep::NoReplay);
    let step = track_end(&mut registry, G, &by(released("t"), 7), TrackEndReason::Finished);
    assert_eq!(step, TrackEndStep::NoReplay);
    assert_eq!(titles(&registry), vec!["a"]);
}

#[test]
fn no_replay_unless_the_track_finished() {
    let mut registry = connected_with(&["a"], true);
    for reason in REASONS_WITHOUT_REPLAY {
        let step = track_end(&mut registry, G, &by(loaded("t"), 7), reason);
        assert_eq!(step, TrackEndStep::NoReplay);
        let step = track_end(&mut registry, G, &by(released("t"), 7), reason);
        assert_eq!(step, TrackEndStep::NoReplay);
    }
    assert_eq!(titles(&registry), vec!["a"]);
}

#[test]
fn track_end_for_unknown_guild_is_dropped() {
    let mut registry = connected_with(&["a"], true);
    let step = track_end(&mut registry, OTHER, &by(loaded("t"), 7), TrackEndReason::Finished);
    assert_eq!(step, TrackEndStep::Dropped);
    assert_eq!(registry.connection_state(OTHER), ConnectionState::Disconnected);
    assert_eq!(titles(&registry), vec!["a"]);
}

#[test]
fn replay_takes_the_best_match_of_a_search() {
    let mut registry = connected_with(&["a"], true);
    let answer = TrackLoadResult::Search(vec![loaded("best"), loaded("second")]);
    assert_eq!(replay_loaded(&mut registry, G, USER, answer), ReplayOutcome::Queued);
    assert_eq!(titles(&registry), vec!["best", "a"]);
}

#[test]
fn replay_of_nothing_changes_nothing() {
    let mut registry = connected_with(&["a"], true);
    let list = TrackLoadResult::Playlist { name: "mix".to_string(), tracks: vec![loaded("x")] };
    assert_eq!(replay_loaded(&mut registry, G, USER, list), ReplayOutcome::NothingToReplay);
    assert_eq!(
        replay_loaded(&mut registry, G, USER, TrackLoadResult::Search(Vec::new())),
        ReplayOutcome::NothingToReplay
    );
    assert_eq!(
        replay_loaded(&mut registry, G, USER, TrackLoadResult::Empty),
        ReplayOutcome::NothingToReplay
    );
    assert_eq!(
        replay_loaded(&mut registry, G, USER, TrackLoadResult::Failed),
        ReplayOutcome::NothingToReplay
    );
    assert_eq!(titles(&registry), vec!["a"]);
}

#[test]
fn replay_for_unknown_guild_is_dropped() {
    let mut registry = connected_with(&["a"], true);
    let answer = TrackLoadResult::Track(loaded("t"));
    assert_eq!(replay_loaded(&mut registry, OTHER, USER, answer), ReplayOutcome::Dropped);
    assert_eq!(
        replay_loaded(&mut registry, OTHER, USER, TrackLoadResult::Empty),
        ReplayOutcome::Dropped
    );
    assert_eq!(titles(&registry), vec!["a"]);
}

#[test]
fn remove_and_replay_one_after_the_other() {
    let mut first = connected_with(&["a", "b", "c"], true);
    assert!(remove(&mut first, G, 0).is_ok());
    let step = track_end(&mut first, G, &by(loaded("t"), 7), TrackEndReason::Finished);
    assert_eq!(step, TrackEndStep::Requeued);
    assert_eq!(titles(&first), vec!["t", "b", "c"]);

    let mut second = connected_with(&["a", "b", "c"], true);
    let step = track_end(&mut second, G, &by(loaded("t"), 7), TrackEndReason::Finished);
    assert_eq!(step, TrackEndStep::Requeued);
    assert!(remove(&mut second, G, 0).is_ok());
    assert_eq!(titles(&second), vec!["a", "b", "c"]);
}

#[test]
fn advance_takes_the_head() {
    let mut registry = connected_with(&["a", "b"], false);
    assert_eq!(advance(&mut registry, G), Some(by(loaded("a"), 42)));
    assert_eq!(titles(&registry), vec!["b"]);
    assert_eq!(advance(&mut registry, G), Some(by(loaded("b"), 42)));
    assert_eq!(advance(&mut registry, G), None);
    assert_eq!(advance(&mut registry, OTHER), None);
    assert!(registry.get(G).is_some());
}

#[test]
fn ready_drops_the_sessions_of_the_connection_before() {
    let mut registry = connected_with(&["a"], false);
    let _ = join(&mut registry, OTHER, TEXT, Some(ChannelId(200)), None);
    assert_eq!(complete_join(&mut registry, OTHER, Ok(())), Ok(true));
    ready_event(&mut registry);
    assert!(registry.get(G).is_none());
    assert!(registry.get(OTHER).is_none());
    assert_eq!(track_start(&registry, G), None);
    ready_event(&mut registry);
    assert!(registry.get(G).is_none());
}
