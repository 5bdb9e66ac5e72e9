use bartender::handoff::Action;
use bartender::player::{PlayerInfo, PlayerState, PlayerStatus, TrackMetadata};

const VLC: &str = "org.mpris.MediaPlayer2.vlc";
const MPV: &str = "org.mpris.MediaPlayer2.mpv";

fn answers(identity: &str, title: &str, position: i64) -> PlayerInfo {
    PlayerInfo {
        status: Some("Playing".to_string()),
        identity: Some(identity.to_string()),
        metadata: Some(TrackMetadata {
            title: Some(title.to_string()),
            artists: Some(vec!["X".to_string(), "Y".to_string()]),
            album: Some("Z".to_string()),
            length: Some(200_000_000),
        }),
        position: Some(position),
        rate: Some(1_000_000),
    }
}

fn bound_to_vlc() -> PlayerState {
    let mut state = PlayerState::new();
    let action = state.on_name_owner_changed(VLC.to_string(), "", ":1.10");
    assert_eq!(action, Action::Bind);
    state.fill_info(answers("VLC", "First", 1_000));
    state
}

fn names(list: &[&str]) -> Option<Vec<String>> {
    Some(list.iter().map(|n| n.to_string()).collect())
}

#[test]
fn actions_that_write_a_record() {
    assert!(!Action::Ignore.emits());
    assert!(!Action::Discover.emits());
    assert!(Action::Bind.emits());
    assert!(Action::Refresh.emits());
    assert!(Action::Emit.emits());
}

#[test]
fn claim_binds_an_unbound_tracker() {
    let mut state = PlayerState::new();
    let action = state.on_name_owner_changed(VLC.to_string(), "", ":1.10");
    assert_eq!(action, Action::Bind);
    assert_eq!(state.bus_name, Some(VLC.to_string()));
    assert_eq!(state.player_name, None);
    assert_eq!(state.status, None);
    assert!(state.tracks(VLC));
    assert!(!state.tracks(MPV));
}

#[test]
fn hand_off_from_one_player_to_the_next() {
    let mut state = PlayerState::new();
    let mut written = 0;

    let action = state.on_name_owner_changed(VLC.to_string(), "", ":1.10");
    assert_eq!(action, Action::Bind);
    state.fill_info(answers("VLC", "First", 1_000));
    if action.emits() {
        written += 1;
    }
    assert_eq!(state.bus_name, Some(VLC.to_string()));

    let action = state.on_name_owner_changed(VLC.to_string(), ":1.10", "");
    assert_eq!(action, Action::Discover);
    if action.emits() {
        written += 1;
    }
    let action = state.rebind(names(&["org.freedesktop.DBus", ":1.3"]));
    assert_eq!(action, Action::Emit);
    if action.emits() {
        written += 1;
    }
    assert_eq!(state, PlayerState::new());

    let action = state.on_name_owner_changed(MPV.to_string(), "", ":1.11");
    assert_eq!(action, Action::Bind);
    state.fill_info(answers("mpv", "Second", 7));
    if action.emits() {
        written += 1;
    }

    assert_eq!(written, 3);
    assert_eq!(
        state,
        PlayerState {
            bus_name: Some(MPV.to_string()),
            player_name: Some("mpv".to_string()),
            status: Some(PlayerStatus::Playing),
            song_name: Some("Second".to_string()),
            artist: Some("X, Y".to_string()),
            album: Some("Z".to_string()),
            position: Some(7),
            length: Some(200_000_000),
            playback_rate: Some(1_000_000),
        }
    );
}

#[test]
fn release_with_a_replacement_rebinds() {
    let mut state = bound_to_vlc();
    let action = state.on_name_owner_changed(VLC.to_string(), ":1.10", "");
    assert_eq!(action, Action::Discover);
    assert_eq!(state, PlayerState::new());
    let action = state.rebind(names(&["org.freedesktop.DBus", MPV, ":1.11"]));
    assert_eq!(action, Action::Bind);
    assert_eq!(state.bus_name, Some(MPV.to_string()));
    assert_eq!(state.song_name, None);
    state.fill_info(answers("mpv", "Second", 7));
    assert_eq!(state.player_name, Some("mpv".to_string()));
}

#[test]
fn failed_listing_counts_as_no_player() {
    let mut state = PlayerState::new();
    assert_eq!(state.rebind(None), Action::Emit);
    assert_eq!(state, PlayerState::new());
}

#[test]
fn discovery_at_start_binds_the_chosen_player() {
    let mut state = PlayerState::new();
    let action = state.rebind(names(&[VLC, "org.freedesktop.DBus", MPV]));
    assert_eq!(action, Action::Bind);
    assert_eq!(state.bus_name, Some(MPV.to_string()));
}

#[test]
fn discovery_while_bound_changes_nothing() {
    let mut state = bound_to_vlc();
    let before = state.clone();
    assert_eq!(state.rebind(names(&[MPV])), Action::Ignore);
    assert_eq!(state, before);
}

#[test]
fn unrelated_name_is_ignored_while_bound() {
    let mut state = bound_to_vlc();
    let before = state.clone();
    assert_eq!(
        state.on_name_owner_changed("org.gnome.Shell".to_string(), ":1.2", ""),
        Action::Ignore
    );
    assert_eq!(state.on_name_owner_changed("org.gnome.Shell".to_string(), "", ":1.2"), Action::Ignore);
    assert_eq!(state.on_name_owner_changed(MPV.to_string(), ":1.11", ""), Action::Ignore);
    assert_eq!(state.on_name_owner_changed(MPV.to_string(), ":1.11", ":1.12"), Action::Ignore);
    assert_eq!(state, before);
}

#[test]
fn unrelated_name_is_ignored_while_unbound() {
    let mut state = PlayerState::new();
    assert_eq!(
        state.on_name_owner_changed("org.gnome.Shell".to_string(), "", ":1.2"),
        Action::Ignore
    );
    assert_eq!(state.on_name_owner_changed(VLC.to_string(), ":1.10", ""), Action::Ignore);
    assert_eq!(state.on_name_owner_changed(VLC.to_string(), "", ""), Action::Ignore);
    assert_eq!(state.on_name_owner_changed(VLC.to_string(), ":1.10", ":1.11"), Action::Ignore);
    assert_eq!(state, PlayerState::new());
}

#[test]
fn second_claim_does_not_rebind() {
    let mut state = bound_to_vlc();
    let before = state.clone();
    assert_eq!(state.on_name_owner_changed(MPV.to_string(), "", ":1.11"), Action::Ignore);
    assert_eq!(state, before);
    assert_eq!(state.bus_name, Some(VLC.to_string()));
    assert_eq!(state.on_name_owner_changed(VLC.to_string(), "", ":1.12"), Action::Ignore);
    assert_eq!(state, before);
}

#[test]
fn owner_replacement_of_the_tracked_name_is_ignored() {
    let mut state = bound_to_vlc();
    let before = state.clone();
    assert_eq!(state.on_name_owner_changed(VLC.to_string(), ":1.10", ":1.12"), Action::Ignore);
    assert_eq!(state, before);
}

#[test]
fn properties_changed_asks_for_a_refresh_of_the_tracked_player() {
    let state = bound_to_vlc();
    assert_eq!(state.on_properties_changed(VLC), Action::Refresh);
    assert_eq!(state.on_properties_changed(MPV), Action::Ignore);
    assert_eq!(PlayerState::new().on_properties_changed(VLC), Action::Ignore);
}

#[test]
fn refresh_overwrites_the_record() {
    let mut state = bound_to_vlc();
    assert_eq!(state.on_properties_changed(VLC), Action::Refresh);
    state.fill_info(answers("VLC", "Next", 0));
    assert_eq!(state.song_name, Some("Next".to_string()));
    assert_eq!(state.position, Some(0));
}

#[test]
fn seek_patches_only_the_position() {
    let mut state = bound_to_vlc();
    let mut expected = state.clone();
    expected.position = Some(42_000_000);
    assert_eq!(state.on_seeked(VLC, 42_000_000), Action::Emit);
    assert_eq!(state, expected);
    assert_eq!(state.on_seeked(VLC, -5), Action::Emit);
    assert_eq!(state.position, Some(-5));
}

#[test]
fn seek_of_another_player_is_ignored() {
    let mut state = bound_to_vlc();
    let before = state.clone();
    assert_eq!(state.on_seeked(MPV, 42_000_000), Action::Ignore);
    assert_eq!(state, before);
    let mut unbound = PlayerState::new();
    assert_eq!(unbound.on_seeked(VLC, 42_000_000), Action::Ignore);
    assert_eq!(unbound, PlayerState::new());
}

#[test]
fn partial_failure_still_writes_a_record() {
    let mut state = PlayerState::new();
    let action = state.on_name_owner_changed(VLC.to_string(), "", ":1.10");
    let mut info = answers("VLC", "First", 1_000);
    info.metadata = None;
    state.fill_info(info);
    assert!(action.emits());
    assert_eq!(state.status, Some(PlayerStatus::Playing));
    assert_eq!(state.song_name, None);
    assert_eq!(state.artist, None);
    assert_eq!(state.album, None);
    assert_eq!(state.length, None);
}
