use lyrfin::spotify::{browse_error_note, is_audio_auth_error, is_episode_uri, SpRecovery};

#[test]
fn auth_errors_are_recognised() {
    assert!(is_audio_auth_error("login5: INVALID_CREDENTIALS"));
    assert!(is_audio_auth_error("auth token: refused"));
    assert!(is_audio_auth_error("http 401 unauthorized"));
    assert!(!is_audio_auth_error("graphql: PersistedQueryNotFound"));
    assert!(!is_audio_auth_error("the auth token expired"));
}

#[test]
fn browse_errors_name_their_cause() {
    assert_eq!(
        browse_error_note("auth token: nope"),
        "Browse needs re-authorizing — Spotify refused these credentials"
    );
    assert_eq!(
        browse_error_note("status 429"),
        "Spotify is rate-limiting browse right now — try again shortly"
    );
    assert_eq!(
        browse_error_note("PersistedQueryNotFound"),
        "Browse is unavailable — Spotify changed its browse API (update lyrfin)"
    );
    assert_eq!(
        browse_error_note("graphql: bad hash"),
        "Browse is unavailable — Spotify changed its browse API (update lyrfin)"
    );
    assert_eq!(browse_error_note("timeout"), "Browse unavailable (timeout)");
}

#[test]
fn episode_uris_are_recognised() {
    assert!(is_episode_uri("spotify:episode:abc"));
    assert!(!is_episode_uri("spotify:track:abc"));
}

#[test]
fn recovery_starts_normal() {
    assert_eq!(SpRecovery::default(), SpRecovery::Normal);
}

use lyrfin::spotify::{load_failed_step, on_session_connected, FailStep, LoadFailure};

fn failure() -> LoadFailure {
    LoadFailure {
        now_playing: true,
        key_retry_pending: false,
        stall_pending: false,
        key_block_confirmed: false,
        streaming_episode: false,
        queue_empty: false,
        cooldown_active: false,
    }
}

#[test]
fn a_failed_track_reconnects_once_then_skips_then_backs_off() {
    let f = failure();
    let (step, rec, streak) = load_failed_step(&f, SpRecovery::Normal, 0);
    assert_eq!((step, rec, streak), (FailStep::Reconnect, SpRecovery::Reconnecting, 0));
    // echoes from the dead session are ignored while reconnecting
    assert_eq!(load_failed_step(&f, rec, streak).0, FailStep::Ignore);
    let rec = on_session_connected(rec);
    assert_eq!(rec, SpRecovery::Reconnected);
    // the fresh session failing too is real: skip once, then back off
    let (step, rec, streak) = load_failed_step(&f, rec, streak);
    assert_eq!((step, streak), (FailStep::Advance, 1));
    assert_eq!(load_failed_step(&f, rec, streak).0, FailStep::BackOff);
}

#[test]
fn failures_another_retry_owns_are_ignored() {
    let mut f = failure();
    f.key_retry_pending = true;
    assert_eq!(load_failed_step(&f, SpRecovery::Normal, 0).0, FailStep::Ignore);
    let mut g = failure();
    g.now_playing = false;
    assert_eq!(load_failed_step(&g, SpRecovery::Normal, 0).0, FailStep::Ignore);
    let mut h = failure();
    h.key_block_confirmed = true;
    assert_eq!(load_failed_step(&h, SpRecovery::Normal, 0).0, FailStep::Advance);
}
