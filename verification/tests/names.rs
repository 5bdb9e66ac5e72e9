use bartender::names::{find_player, has_player_prefix, PLAYER_PREFIX};

fn list(names: &[&str]) -> Vec<String> {
    names.iter().map(|n| n.to_string()).collect()
}

#[test]
fn prefix_is_the_media_player_namespace() {
    assert_eq!(PLAYER_PREFIX, "org.mpris.MediaPlayer2.");
    assert_eq!(PLAYER_PREFIX.chars().count(), 23);
}

#[test]
fn player_names_are_recognised() {
    assert!(has_player_prefix("org.mpris.MediaPlayer2.vlc"));
    assert!(has_player_prefix("org.mpris.MediaPlayer2.spotify"));
    assert!(has_player_prefix("org.mpris.MediaPlayer2."));
}

#[test]
fn other_names_are_not_player_names() {
    assert!(!has_player_prefix(""));
    assert!(!has_player_prefix(":1.42"));
    assert!(!has_player_prefix("org.freedesktop.DBus"));
    assert!(!has_player_prefix("org.mpris.MediaPlayer2"));
    assert!(!has_player_prefix("org.mpris.mediaplayer2.vlc"));
    assert!(!has_player_prefix("xorg.mpris.MediaPlayer2.vlc"));
}

#[test]
fn prefix_test_counts_characters_not_bytes() {
    assert!(has_player_prefix("org.mpris.MediaPlayer2.müsik"));
    assert!(!has_player_prefix("örg.mpris.MediaPlayer2.vlc"));
    assert!(!has_player_prefix("ééééééééééééééééééééééé"));
}

#[test]
fn find_player_in_empty_registry() {
    assert_eq!(find_player(&Vec::new()), None);
}

#[test]
fn find_player_without_any_player() {
    let names = list(&["org.freedesktop.DBus", ":1.0", "org.gnome.Shell"]);
    assert_eq!(find_player(&names), None);
}

#[test]
fn find_player_single() {
    let names = list(&["org.freedesktop.DBus", "org.mpris.MediaPlayer2.vlc", ":1.7"]);
    assert_eq!(find_player(&names), Some("org.mpris.MediaPlayer2.vlc".to_string()));
}

#[test]
fn find_player_takes_the_last_match() {
    let names = list(&[
        "org.mpris.MediaPlayer2.vlc",
        "org.freedesktop.DBus",
        "org.mpris.MediaPlayer2.spotify",
        "org.mpris.MediaPlayer2.mpv",
        ":1.9",
    ]);
    assert_eq!(find_player(&names), Some("org.mpris.MediaPlayer2.mpv".to_string()));
}

#[test]
fn find_player_last_match_at_front() {
    let names = list(&["org.mpris.MediaPlayer2.vlc", "a", "b"]);
    assert_eq!(find_player(&names), Some("org.mpris.MediaPlayer2.vlc".to_string()));
}
