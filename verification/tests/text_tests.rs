use vh1_bot::text::{looks_like_uri, same_text, starts_with};

#[test]
fn starts_with_compares_characters() {
    assert!(starts_with("http://x", "http"));
    assert!(starts_with("http", "http"));
    assert!(starts_with("anything", ""));
    assert!(starts_with("", ""));
    assert!(!starts_with("htt", "http"));
    assert!(!starts_with("", "http"));
    assert!(!starts_with("xhttp", "http"));
    assert!(!starts_with("Http://x", "http"));
    assert!(starts_with("日本語の歌", "日本"));
    assert!(!starts_with("日本語の歌", "本"));
}

#[test]
fn same_text_is_equality() {
    assert!(same_text("", ""));
    assert!(same_text("mp3", "mp3"));
    assert!(!same_text("mp3", "mp"));
    assert!(!same_text("mp", "mp3"));
    assert!(!same_text("mp3", "mp4"));
    assert!(same_text("日本", "日本"));
}

#[test]
fn an_address_begins_with_http() {
    assert!(looks_like_uri("http://example/track.mp3"));
    assert!(looks_like_uri("https://example"));
    assert!(looks_like_uri("http"));
    assert!(!looks_like_uri("lofi beats"));
    assert!(!looks_like_uri("htt"));
    assert!(!looks_like_uri(""));
    assert!(!looks_like_uri(" http://example"));
    assert!(!looks_like_uri("HTTP://example"));
}
