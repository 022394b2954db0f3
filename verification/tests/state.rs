use lyrfin::artistinfo::{ArtistInfo, InfoResult};
use lyrfin::state::AppState;

fn info(name: &str) -> ArtistInfo {
    ArtistInfo { name: name.into(), bio: "bio".into(), ..ArtistInfo::default() }
}

#[test]
fn info_is_gated_on_the_requested_artist() {
    let mut app = AppState::new();
    assert!(app.begin_artist_info("Radiohead".into(), String::new(), false).is_none());
    assert!(!app.artist_info_loading(Some("Radiohead")), "a hidden pane fetches nothing");
    let req = app.begin_artist_info("Radiohead".into(), "OK Computer".into(), true).unwrap();
    assert_eq!(req.artist, "Radiohead");
    assert!(app.artist_info_loading(Some("Radiohead")));
    assert!(!app.artist_info_loading(Some("Björk")));
    // asking again for the same artist starts nothing
    assert!(app.begin_artist_info("Radiohead".into(), String::new(), true).is_none());
    // a stale result for another artist is dropped
    app.on_info_result(InfoResult { artist: "Björk".into(), info: Some(info("Björk")) });
    assert!(app.current_artist_info(Some("Radiohead")).is_none());
    assert!(app.artist_info_loading(Some("Radiohead")));
    // the requested artist's result lands and shows only in its own pane
    app.on_info_result(InfoResult { artist: "Radiohead".into(), info: Some(info("Radiohead")) });
    assert_eq!(app.current_artist_info(Some("Radiohead")).map(|i| i.name.as_str()), Some("Radiohead"));
    assert!(app.current_artist_info(Some("Björk")).is_none());
    assert!(app.current_artist_info(None).is_none());
    assert!(!app.artist_info_loading(Some("Radiohead")));
}

use lyrfin::state::ConnState;

#[test]
fn reconnect_backs_off_5_10_20_40_then_60() {
    let mut app = AppState::new();
    app.on_auth_connected("me".into(), true, "acct".into());
    let mut delays = Vec::new();
    for k in 0..7u64 {
        let now = 1000 * k;
        let first = app.on_conn_lost("net down".into(), now);
        assert_eq!(first, k == 0, "the outage reason is recorded once");
        delays.push(app.spotify.reconnect_at.unwrap() - now);
        assert!(matches!(app.spotify.conn, ConnState::Reconnecting { .. }));
        assert!(!app.spotify_reconnect_due(now + delays[k as usize] - 1));
        assert!(app.spotify_reconnect_due(now + delays[k as usize]));
        assert!(app.tick_reconnect(now + delays[k as usize]));
        assert!(app.spotify.resuming && app.spotify.reconnect_at.is_none());
        assert!(!app.tick_reconnect(now + 10_000), "one resume at a time");
    }
    assert_eq!(delays, vec![5, 10, 20, 40, 60, 60, 60]);
    app.on_auth_connected("me".into(), true, "acct".into());
    assert_eq!(app.spotify.reconnect_attempts, 0);
    assert!(app.spotify.reconnect_at.is_none());
}

#[test]
fn an_auth_error_is_not_retried() {
    let mut app = AppState::new();
    app.on_auth_waiting("https://accounts.example/login".into());
    assert!(matches!(&app.spotify.conn, ConnState::Connecting { url: Some(u) } if u.contains("login")));
    app.on_conn_lost("blip".into(), 50);
    app.on_auth_error("bad credentials".into());
    assert!(app.spotify.reconnect_at.is_none());
    assert!(matches!(app.spotify.conn, ConnState::Error { .. }));
    assert!(!app.spotify_reconnect_due(u64::MAX - 60));
}

#[test]
fn no_token_no_reconnect() {
    let mut app = AppState::new();
    app.on_conn_lost("down".into(), 0);
    assert!(!app.spotify_reconnect_due(100), "nothing to resume with");
}

use lyrfin::state::PodcastAction;
use lyrfin::types::Layout;

#[test]
fn handled_events_ask_for_a_redraw() {
    let mut app = AppState::new();
    assert!(!app.dirty);
    app.on_auth_waiting("https://accounts.example/login".into());
    assert!(app.dirty);
    app.dirty = false;
    app.on_conn_lost("net down".into(), 10);
    assert!(app.dirty, "a lost connection redraws the status");
    app.dirty = false;
    app.on_auth_error("nope".into());
    assert!(app.dirty);
}

#[test]
fn connecting_as_another_account_resets_the_restored_state() {
    let mut app = AppState::new();
    app.spotify.restored_account = Some("alice".into());
    let c = app.on_auth_connected("Bob".into(), false, "bob".into());
    assert!(c.reset_account);
    assert_eq!(app.spotify.account_id.as_deref(), Some("bob"));
    assert!(app.spotify.restored_account.is_none());

    let mut same = AppState::new();
    same.spotify.restored_account = Some("bob".into());
    assert!(!same.on_auth_connected("Bob".into(), false, "bob".into()).reset_account);

    let mut unknown = AppState::new();
    unknown.spotify.restored_account = Some("alice".into());
    assert!(!unknown.on_auth_connected("Bob".into(), false, String::new()).reset_account);
    assert_eq!(unknown.spotify.restored_account.as_deref(), Some("alice"));
}

#[test]
fn a_stale_session_is_dropped_on_reconnect_unless_streaming() {
    let mut idle = AppState::new();
    idle.spov.session_live = true;
    idle.spov.sp_fail_streak = 3;
    idle.spov.sp_cooldown_until = 99;
    idle.on_auth_connected("me".into(), true, "me".into());
    assert!(!idle.spov.session_live);
    assert_eq!(idle.spov.sp_fail_streak, 0);
    assert_eq!(idle.spov.sp_cooldown_until, 0);

    let mut playing = AppState::new();
    playing.spov.session_live = true;
    playing.spov.now_spotify = Some("spotify:track:1".into());
    playing.spov.sp_started = true;
    playing.on_auth_connected("me".into(), true, "me".into());
    assert!(playing.spov.session_live, "an active stream keeps its session");
}

#[test]
fn busy_showing_and_buffering_flags() {
    let mut app = AppState::new();
    assert!(!app.spotify_busy());
    app.spotify.loading = true;
    assert!(app.spotify_busy());
    assert!(!app.showing_spotify());
    app.spov.now_spotify = Some("spotify:track:1".into());
    assert!(!app.showing_spotify(), "only the Spotify view shows it");
    app.layout = Layout::Spotify;
    assert!(app.showing_spotify());
    assert!(app.sp_buffering());
    app.spov.sp_started = true;
    assert!(!app.sp_buffering());
}

#[test]
fn podcast_results_stream_or_fail_only_for_the_playing_episode() {
    let mut app = AppState::new();
    app.spov.now_spotify = Some("spotify:episode:1".into());
    assert!(matches!(app.on_podcast_result("spotify:episode:2", Some("http://x/a.mp3".into())), PodcastAction::Ignore));
    assert!(!app.dirty);
    match app.on_podcast_result("spotify:episode:1", Some("http://x/a.mp3".into())) {
        PodcastAction::Stream(u) => assert_eq!(u, "http://x/a.mp3"),
        _ => panic!("expected a stream"),
    }
    assert!(app.spov.sp_stream && app.dirty);
    assert!(matches!(app.on_podcast_result("spotify:episode:1", None), PodcastAction::Unplayable));
    assert!(app.spov.spotify_paused && !app.spov.sp_started);
}

use lyrfin::state::{AuthEvent, AuthOutcome};

#[test]
fn login_events_are_drained_in_order() {
    let mut app = AppState::new();
    assert!(app.pump_spotify(vec![], 0).is_empty());
    assert!(!app.dirty);
    let outs = app.pump_spotify(
        vec![
            AuthEvent::Waiting { url: "https://accounts.example/login".into() },
            AuthEvent::Connected { account_id: "me".into(), name: "Me".into(), premium: true },
            AuthEvent::ConnLost { msg: "net down".into() },
            AuthEvent::ConnLost { msg: "still down".into() },
        ],
        100,
    );
    assert!(matches!(outs[0], AuthOutcome::Nothing));
    assert!(matches!(&outs[1], AuthOutcome::Connected(c) if c.notice == "Spotify connected as Me"));
    assert!(matches!(&outs[2], AuthOutcome::LogError(m) if m == "net down"), "an outage's reason is logged once");
    assert!(matches!(outs[3], AuthOutcome::Nothing));
    assert_eq!(app.spotify.reconnect_attempts, 2);
    assert_eq!(app.spotify.reconnect_at, Some(110));
    assert!(app.dirty);
    let outs = app.pump_spotify(vec![AuthEvent::Error { msg: "bad".into() }], 200);
    assert!(matches!(&outs[0], AuthOutcome::LogError(m) if m == "bad"));
    assert!(matches!(app.spotify.conn, ConnState::Error { .. }));
}
