use vh1_bot::ids::UserId;
use vh1_bot::queue::{QueueController, QueueError};
use vh1_bot::track::{QueuedTrack, Track};

fn track(name: &str) -> QueuedTrack {
    QueuedTrack {
        track: Track {
            encoded: format!("handle-{name}"),
            title: name.to_string(),
            author: "someone".to_string(),
            uri: Some(format!("http://example/{name}.mp3")),
        },
        requester_id: UserId(7),
    }
}

fn titles(queue: &QueueController) -> Vec<String> {
    queue.peek(queue.len()).into_iter().map(|t| t.track.title).collect()
}

fn queue_of(names: &[&str]) -> QueueController {
    let mut queue = QueueController::new();
    queue.append(names.iter().map(|n| track(n)).collect());
    queue
}

#[test]
fn new_queue_is_empty() {
    let queue = QueueController::new();
    assert_eq!(queue.len(), 0);
    assert!(queue.is_empty());
    assert!(queue.peek(5).is_empty());
}

#[test]
fn append_keeps_input_order_behind_what_waits() {
    let mut queue = queue_of(&["a", "b"]);
    queue.append(vec![track("c"), track("d")]);
    assert_eq!(titles(&queue), vec!["a", "b", "c", "d"]);
    assert_eq!(queue.len(), 4);
    assert!(!queue.is_empty());
}

#[test]
fn append_of_nothing_changes_nothing() {
    let mut queue = queue_of(&["a"]);
    queue.append(Vec::new());
    assert_eq!(titles(&queue), vec!["a"]);
}

#[test]
fn remove_middle_of_three_keeps_the_others_in_order() {
    let mut queue = queue_of(&["a", "b", "c"]);
    let removed = queue.remove(1);
    assert_eq!(removed, Ok(track("b")));
    assert_eq!(titles(&queue), vec!["a", "c"]);
}

#[test]
fn remove_at_length_is_out_of_range() {
    let mut queue = queue_of(&["a", "b", "c"]);
    assert_eq!(queue.remove(3), Err(QueueError::IndexOutOfRange));
    assert_eq!(titles(&queue), vec!["a", "b", "c"]);
}

#[test]
fn remove_from_empty_queue_is_out_of_range() {
    let mut queue = QueueController::new();
    assert_eq!(queue.remove(0), Err(QueueError::IndexOutOfRange));
    assert_eq!(queue.remove(usize::MAX), Err(QueueError::IndexOutOfRange));
}

#[test]
fn remove_first_and_last() {
    let mut queue = queue_of(&["a", "b", "c"]);
    assert_eq!(queue.remove(2), Ok(track("c")));
    assert_eq!(queue.remove(0), Ok(track("a")));
    assert_eq!(titles(&queue), vec!["b"]);
}

#[test]
fn clear_empties_the_queue() {
    let mut queue = queue_of(&["a", "b"]);
    queue.clear();
    assert!(queue.is_empty());
    queue.clear();
    assert!(queue.is_empty());
}

#[test]
fn pop_front_takes_the_head() {
    let mut queue = queue_of(&["a", "b"]);
    assert_eq!(queue.pop_front(), Some(track("a")));
    assert_eq!(queue.pop_front(), Some(track("b")));
    assert_eq!(queue.pop_front(), None);
    assert!(queue.is_empty());
}

#[test]
fn push_to_front_makes_the_track_next() {
    let mut queue = queue_of(&["a", "b"]);
    queue.push_to_front(track("z"));
    assert_eq!(titles(&queue), vec!["z", "a", "b"]);
    assert_eq!(queue.pop_front(), Some(track("z")));
}

#[test]
fn push_to_front_of_empty_queue() {
    let mut queue = QueueController::new();
    queue.push_to_front(track("z"));
    assert_eq!(titles(&queue), vec!["z"]);
}

#[test]
fn peek_copies_the_first_entries_and_leaves_the_queue() {
    let queue = queue_of(&["a", "b", "c"]);
    let first_two = queue.peek(2);
    assert_eq!(first_two, vec![track("a"), track("b")]);
    assert_eq!(queue.len(), 3);
    assert!(queue.peek(0).is_empty());
}

#[test]
fn peek_beyond_the_end_gives_all() {
    let queue = queue_of(&["a", "b", "c"]);
    assert_eq!(queue.peek(3).len(), 3);
    assert_eq!(queue.peek(10), vec![track("a"), track("b"), track("c")]);
    assert_eq!(queue.peek(usize::MAX).len(), 3);
}

#[test]
fn shuffle_keeps_every_track() {
    let names: Vec<String> = (0..40).map(|i| format!("t{i:02}")).collect();
    let refs: Vec<&str> = names.iter().map(|n| n.as_str()).collect();
    let mut queue = queue_of(&refs);
    queue.shuffle();
    assert_eq!(queue.len(), 40);
    let mut after = titles(&queue);
    after.sort();
    assert_eq!(after, names);
}

#[test]
fn shuffle_keeps_tracks_that_occur_twice() {
    let mut queue = queue_of(&["a", "a", "b", "a"]);
    queue.shuffle();
    let mut after = titles(&queue);
    after.sort();
    assert_eq!(after, vec!["a", "a", "a", "b"]);
}

#[test]
fn shuffle_rearranges_a_long_queue() {
    let names: Vec<String> = (0..60).map(|i| format!("t{i:02}")).collect();
    let refs: Vec<&str> = names.iter().map(|n| n.as_str()).collect();
    let mut queue = queue_of(&refs);
    queue.shuffle();
    assert_ne!(titles(&queue), names);
}

#[test]
fn shuffle_of_empty_queue_is_a_no_op() {
    let mut queue = QueueController::new();
    queue.shuffle();
    assert!(queue.is_empty());
}

#[test]
fn shuffle_of_single_track_is_a_no_op() {
    let mut queue = queue_of(&["only"]);
    queue.shuffle();
    assert_eq!(queue.peek(1), vec![track("only")]);
}

#[test]
fn duplicate_is_equal_to_what_it_copies() {
    let queued = track("a");
    assert_eq!(queued.duplicate(), queued);
    assert_eq!(queued.track.duplicate(), queued.track);
    let bare = Track {
        encoded: String::new(),
        title: "t".to_string(),
        author: "a".to_string(),
        uri: None,
    };
    assert_eq!(bare.duplicate(), bare);
}

#[test]
fn queued_by_stamps_the_requester() {
    let queued = track("a").track.queued_by(UserId(99));
    assert_eq!(queued.requester_id, UserId(99));
    assert_eq!(queued.track, track("a").track);
}
