use lyrfin::session::{ArtTarget, AudioAuth, SessionEvent, SpResult, SessionAction, SessionState, SpList, ARTIST_PANE_KEY, REMOVE_FETCH_KEY};
use lyrfin::spotify::SpRecovery;

fn list(key: &str) -> SpList {
    SpList {
        key: key.into(),
        loading: true,
        note: String::new(),
        items: Vec::new(),
        sel: 0,
        reload_attempts: 2,
        reload_at: Some(99),
        loading_more: false,
        exhausted: false,
        limit: 10,
        podcasts: false,
    }
}

fn state() -> SessionState {
    SessionState {
        audio_auth: AudioAuth::Unknown,
        recovery: SpRecovery::Normal,
        session_live: true,
        now_uri: Some("spotify:episode:1".into()),
        now_artist: "Björk".into(),
        spotify_paused: false,
        sp_started: false,
        sp_pos_ms: 0,
        played_ok: false,
        key_denials: 2,
        resume_at: Some(5),
        keyretry_at: Some(6),
        keyretry_n: 1,
        sp_fail_streak: 3,
        sp_cooldown_until: 40,
        list: list("home"),
        artist: None,
        artist_top: Vec::new(),
        sp_saved: false,
        cover_url: Some("http://cover".into()),
        artist_uri: Some("spotify:artist:1".into()),
        artist_cover_url: None,
        show_uri: Some("spotify:show:1".into()),
        show_meta: None,
        followed_shows: Vec::new(),
        follow_pending: None,
        follows_section: false,
        resuming: false,
        has_tokens: true,
        dirty: false,
    }
}

fn items(v: &[&str]) -> Vec<String> {
    v.iter().map(|s| s.to_string()).collect()
}

#[test]
fn connecting_finishes_a_reconnect_and_accepts_audio() {
    let mut s = state();
    s.recovery = SpRecovery::Reconnecting;
    s.on_connected();
    assert!(matches!(s.audio_auth, AudioAuth::Accepted));
    assert_eq!(s.recovery, SpRecovery::Reconnected);
    assert!(s.dirty);
}

#[test]
fn a_refused_credential_drops_the_session_and_heals() {
    let mut s = state();
    assert!(matches!(s.on_auth_rejected("login5: INVALID_CREDENTIALS"), SessionAction::HealAudioAuth));
    assert!(matches!(&s.audio_auth, AudioAuth::Rejected(r) if r == "credentials not accepted for this app"));
    assert!(!s.session_live);
    s.on_auth_rejected("nope");
    assert!(matches!(&s.audio_auth, AudioAuth::Rejected(r) if r == "token exchange refused"));
}

#[test]
fn playing_resets_every_failure_budget() {
    let mut s = state();
    s.spotify_paused = true;
    assert!(matches!(s.on_playing(1500), SessionAction::Played));
    assert!(s.sp_started && s.played_ok);
    assert_eq!((s.key_denials, s.keyretry_n, s.sp_fail_streak, s.sp_cooldown_until), (0, 0, 0, 0));
    assert!(s.resume_at.is_none() && s.keyretry_at.is_none());
    assert_eq!(s.sp_pos_ms, 1500);
    assert!(s.spotify_paused, "the pause flag is the user's");
    s.on_paused(2000);
    assert_eq!(s.sp_pos_ms, 2000);
}

#[test]
fn end_of_track_judges_by_whether_it_started() {
    let mut s = state();
    assert!(matches!(s.on_end_of_track(), SessionAction::LoadFailed));
    s.sp_started = true;
    assert!(matches!(s.on_end_of_track(), SessionAction::TrackEnded));
}

#[test]
fn a_dead_session_pauses_but_keeps_the_overlay() {
    let mut s = state();
    s.sp_started = true;
    s.recovery = SpRecovery::Reconnecting;
    match s.on_connect_error("timeout") {
        SessionAction::ConnectFailed { notice } => assert_eq!(notice, "Spotify playback: timeout"),
        _ => panic!("expected a connect failure"),
    }
    assert!(s.spotify_paused && !s.sp_started && !s.session_live);
    assert_eq!(s.recovery, SpRecovery::Normal);
    assert_eq!(s.now_uri.as_deref(), Some("spotify:episode:1"));
    assert!(!s.list.loading);
    assert_eq!(s.list.note, "Couldn't reach Spotify — retrying…");
}

#[test]
fn results_for_other_lists_are_stale() {
    let mut s = state();
    s.on_tracks("playlist:9", items(&["a"]));
    assert!(s.list.items.is_empty() && s.list.loading);
    s.on_artist_page("artist:1", items(&["a"]));
    assert!(s.list.loading);
    assert!(matches!(s.on_browse("browse", items(&["a"]), None, "All"), SessionAction::Nothing));
    assert!(s.list.loading);
}

#[test]
fn tracks_keep_the_cursor_clamped() {
    let mut s = state();
    s.list.sel = 5;
    s.on_tracks("home", items(&["a", "b"]));
    assert_eq!(s.list.sel, 1);
    assert!(!s.list.loading && s.list.note.is_empty());
    s.on_tracks("home", vec![]);
    assert_eq!(s.list.note, "Nothing to play here");
    s.on_tracks(ARTIST_PANE_KEY, items(&["top"]));
    assert_eq!(s.artist_top, items(&["top"]));
}

#[test]
fn artist_meta_merges_into_the_pane() {
    let mut s = state();
    s.on_artist_meta("other", 5, "x".into());
    assert!(s.artist.is_none());
    s.on_artist_meta(ARTIST_PANE_KEY, 42, String::new());
    let a = s.artist.as_ref().unwrap();
    assert_eq!((a.name.as_str(), a.popularity, a.bio.as_str()), ("Björk", 42, ""));
    s.on_artist_meta(ARTIST_PANE_KEY, 43, "Icelandic singer".into());
    assert_eq!(s.artist.as_ref().unwrap().bio, "Icelandic singer");
}

#[test]
fn removal_uris_and_episodes_route_to_the_caller() {
    let mut s = state();
    assert!(matches!(s.on_playlist_uris(REMOVE_FETCH_KEY, items(&["u"]), true), SessionAction::ApplyRemove { ok: true, .. }));
    assert!(matches!(s.on_playlist_uris("x", items(&["u"]), true), SessionAction::Nothing));
    assert!(matches!(s.on_episode_resolved("spotify:episode:2", None), SessionAction::Nothing));
    assert!(matches!(s.on_episode_resolved("spotify:episode:1", None), SessionAction::ResolvePodcast));
    assert!(matches!(s.on_episode_resolved("spotify:episode:1", Some("http://x".into())), SessionAction::StreamEpisode(u) if u == "http://x"));
}

#[test]
fn browse_results_fill_extend_or_explain() {
    let mut s = state();
    assert!(matches!(s.on_browse("home", items(&["a", "b"]), None, "All"), SessionAction::RestoreInitial));
    assert_eq!(s.list.items.len(), 2);
    assert_eq!((s.list.reload_attempts, s.list.reload_at), (0, None));
    s.list.loading_more = true;
    s.list.sel = 1;
    s.on_browse("home", items(&["a", "b"]), None, "All");
    assert!(s.list.exhausted, "the page stopped growing");
    assert!(!s.list.loading_more);
    s.on_browse("home", items(&["All"]), None, "All");
    assert!(s.list.items.is_empty());
    assert_eq!(s.list.note, "Nothing here");
    s.list.podcasts = true;
    s.on_browse("home", vec![], None, "All");
    assert_eq!(s.list.note, "No podcasts to browse here — they may not be available in your region.");
    assert!(matches!(s.on_browse("home", vec![], Some("auth token: 401".into()), "All"), SessionAction::HealAudioAuth));
    assert!(matches!(s.on_browse("home", vec![], Some("HTTP 429".into()), "All"), SessionAction::ScheduleReload));
    assert_eq!(s.list.note, "Spotify is rate-limiting browse right now — try again shortly");
    assert!(matches!(s.on_browse("home", vec![], Some("graphql PersistedQueryNotFound".into()), "All"), SessionAction::Nothing));
}

#[test]
fn the_podcasts_library_leads_with_the_hub_and_records_follows() {
    let mut s = state();
    s.list.podcasts = true;
    assert!(matches!(s.on_library("home", items(&["Show A"]), items(&["spotify:show:a"])), SessionAction::RestoreInitial));
    assert_eq!(s.list.items, items(&["Browse Top Podcasts", "Show A"]));
    assert_eq!(s.followed_shows, items(&["spotify:show:a"]));
    assert!(s.list.note.is_empty());
    let mut m = state();
    m.on_library("home", vec![], vec![]);
    assert_eq!(m.list.note, "Nothing here yet");
    assert!(matches!(m.on_library("other", vec![], vec![]), SessionAction::Nothing));
}

#[test]
fn search_results_group_tracks_first() {
    let mut s = state();
    s.on_search("home", items(&["t"]), items(&["al"]), items(&["ar"]), items(&["p"]), items(&["sh"]));
    assert_eq!(s.list.items, items(&["t", "al", "ar", "p", "sh"]));
    s.on_search("home", vec![], vec![], vec![], vec![], vec![]);
    assert_eq!(s.list.note, "No results");
    s.on_opened("home", items(&["x", "y"]), 1);
    assert_eq!(s.list.sel, 1);
}

#[test]
fn saved_follow_and_show_meta_apply_only_to_the_current_item() {
    let mut s = state();
    s.on_saved("spotify:episode:2", true);
    assert!(!s.sp_saved);
    s.on_saved("spotify:episode:1", true);
    assert!(s.sp_saved);
    s.follow_pending = Some(("spotify:show:a".into(), "Show A".into()));
    let (text, reload) = s.on_follow("spotify:show:a".into(), true);
    assert_eq!(text, "✓ Following Show A");
    assert!(!reload);
    assert_eq!(s.followed_shows, items(&["spotify:show:a"]));
    s.on_follow("spotify:show:a".into(), true);
    assert_eq!(s.followed_shows.len(), 1, "no show twice");
    s.follows_section = true;
    let (text, reload) = s.on_follow("spotify:show:a".into(), false);
    assert_eq!(text, "Unfollowed this");
    assert!(reload && s.followed_shows.is_empty());
    s.on_show_meta("spotify:show:9".into(), "p".into(), "d".into());
    assert!(s.show_meta.is_none());
    s.on_show_meta("spotify:show:1".into(), "Pub".into(), "About".into());
    assert_eq!(s.show_meta.as_ref().unwrap().publisher, "Pub");
}

#[test]
fn web_artist_details_merge_over_the_session_ones() {
    let mut s = state();
    s.on_artist_meta(ARTIST_PANE_KEY, 70, "bio".into());
    assert!(matches!(s.on_artist("spotify:artist:2", "X".into(), None, String::new(), 1), SessionAction::Nothing));
    let a = s.on_artist("spotify:artist:1", "Björk".into(), Some("http://img".into()), String::new(), 99);
    assert!(matches!(a, SessionAction::FetchArtistPhoto(u) if u == "http://img"));
    let art = s.artist.as_ref().unwrap();
    assert_eq!((art.name.as_str(), art.followers, art.popularity, art.bio.as_str()), ("Björk", 99, 70, "bio"));
    assert_eq!(s.artist_cover_url.as_deref(), Some("http://img"));
}

#[test]
fn an_unauthorized_answer_resumes_once() {
    let mut s = state();
    assert!(matches!(s.on_unauthorized("other"), SessionAction::Nothing));
    assert!(s.list.loading);
    assert!(matches!(s.on_unauthorized(""), SessionAction::ResumeLogin));
    assert!(s.resuming && !s.list.loading);
    assert_eq!(s.list.note, "Refreshing session…");
    assert!(matches!(s.on_unauthorized("home"), SessionAction::Nothing), "a resume is in flight");
}

#[test]
fn errors_go_to_a_toast_or_the_list_note() {
    let mut s = state();
    assert!(matches!(s.on_error("", "like failed".into()), SessionAction::NotifyError(m) if m == "like failed"));
    assert!(s.list.loading);
    s.on_error("home", "HTTP 500".into());
    assert_eq!(s.list.note, "HTTP 500");
    assert!(!s.list.loading);
}

use lyrfin::session::{SkipState, SKIP_DEBOUNCE_MS};

fn skipper(n: usize, idx: usize) -> SkipState {
    SkipState {
        queue_len: n,
        idx,
        target: None,
        at: None,
        queue_sel: idx,
        fail_streak: 4,
        recovery: SpRecovery::Reconnected,
        dirty: false,
    }
}

#[test]
fn a_burst_of_skips_loads_only_where_it_lands() {
    let mut q = skipper(5, 1);
    assert_eq!(q.track(1, 1000), Some(2));
    assert_eq!(q.track(1, 1100), Some(3), "presses accumulate from the pending target");
    assert_eq!(q.queue_sel, 3);
    assert_eq!(q.tick(1100 + SKIP_DEBOUNCE_MS - 1), None, "still debouncing");
    assert_eq!(q.tick(1100 + SKIP_DEBOUNCE_MS), Some(3));
    assert_eq!((q.fail_streak, q.recovery), (0, SpRecovery::Normal));
    assert_eq!(q.tick(5000), None, "loaded once");
    assert_eq!(q.track(-3, 6000), Some(3), "wraps backwards from the playing track");
    let mut empty = skipper(0, 0);
    assert_eq!(empty.track(1, 0), None);
}

use lyrfin::session::{Retries, RetryAction, KEY_RETRY_DELAY_MS};

fn retries() -> Retries {
    Retries {
        has_track: true,
        sp_started: false,
        sp_stream: false,
        spotify_paused: false,
        sp_pos_ms: 42_000,
        session_live: true,
        recovery: SpRecovery::Reconnecting,
        keyretry_at: None,
        keyretry_n: 0,
        stall_at: None,
        stall_n: 0,
        stall_pos_ms: 0,
        seeking: false,
        skipping: false,
        resume_at: None,
        tick: 1000,
        last_audio_progress: 1000,
    }
}

#[test]
fn a_throttled_key_is_retried_twice_then_escalates() {
    let mut r = retries();
    let (owned, notice) = r.arm_key_retry(10);
    assert!(owned);
    assert_eq!(notice.as_deref(), Some("Spotify throttled the track key — retrying…"));
    assert_eq!(r.arm_key_retry(11), (true, None), "an echo folds into the pending retry");
    assert!(matches!(r.tick_key_retry(10 + KEY_RETRY_DELAY_MS - 1), RetryAction::Nothing));
    assert!(matches!(r.tick_key_retry(10 + KEY_RETRY_DELAY_MS), RetryAction::Reissue(42_000)));
    assert!(r.arm_key_retry(2000).0);
    r.tick_key_retry(u64::MAX);
    assert_eq!(r.arm_key_retry(5000), (false, None), "the budget is spent");
}

#[test]
fn a_stall_rebuffers_in_place_unless_a_skip_is_pending() {
    let mut r = retries();
    r.stall_at = Some(100);
    r.skipping = true;
    assert!(matches!(r.tick_stall(100), RetryAction::Nothing));
    assert!(r.stall_at.is_none());
    r.stall_at = Some(100);
    r.skipping = false;
    assert!(matches!(r.tick_stall(99), RetryAction::Nothing));
    assert!(matches!(r.tick_stall(150), RetryAction::Reissue(42_000)));
}

#[test]
fn a_stalled_stream_reopens_then_pauses() {
    let mut r = retries();
    r.sp_stream = true;
    r.sp_pos_ms = 5_000;
    r.tick = 1059;
    assert!(matches!(r.tick_stream_watchdog(60), RetryAction::Nothing), "not stalled yet");
    for k in 1..=3u8 {
        r.tick += 60;
        match r.tick_stream_watchdog(60) {
            RetryAction::Reopen { pos_ms, notice } => {
                assert_eq!(pos_ms, 5_000);
                assert_eq!(notice, "Episode stream stalled — reconnecting…");
            }
            _ => panic!("expected a re-open"),
        }
        assert_eq!(r.stall_n, k);
    }
    r.tick += 60;
    assert!(matches!(r.tick_stream_watchdog(60), RetryAction::GiveUp(_)));
    assert!(r.spotify_paused && r.stall_n == 0);
}

#[test]
fn the_back_off_resumes_on_a_fresh_session() {
    let mut r = retries();
    r.resume_at = Some(500);
    r.spotify_paused = true;
    assert!(matches!(r.tick_cooldown_resume(499), RetryAction::Nothing));
    match r.tick_cooldown_resume(500) {
        RetryAction::Resume(t) => assert_eq!(t, "Spotify back-off elapsed — resuming…"),
        _ => panic!("expected a resume"),
    }
    assert!(!r.session_live && r.recovery == SpRecovery::Normal);
    r.resume_at = Some(600);
    r.spotify_paused = false;
    assert!(matches!(r.tick_cooldown_resume(700), RetryAction::Nothing), "the user took over");
}

use lyrfin::session::{advance, failure_hint, key_block_confirmed, next_index, Advance, Ended, Pacing, Repeat};

#[test]
fn advancing_honours_repeat() {
    assert_eq!(next_index(3, 1, Repeat::Off), Some(2));
    assert_eq!(next_index(3, 2, Repeat::Off), None, "the end of the queue");
    assert_eq!(next_index(3, 2, Repeat::All), Some(0));
    assert_eq!(next_index(3, 2, Repeat::One), Some(2));
    assert_eq!(next_index(0, 0, Repeat::All), None);
    assert_eq!(advance(3, 2, Repeat::Off, false), Advance::Stop);
    assert_eq!(advance(3, 0, Repeat::Off, false), Advance::Play(1));
    assert_eq!(advance(3, 0, Repeat::Off, true), Advance::Nothing, "a pending skip wins");
}

#[test]
fn the_back_off_doubles_to_five_minutes() {
    let mut p = Pacing { fail_streak: 0, cooldown_until: 0 };
    let mut secs = Vec::new();
    for _ in 0..6 {
        p.trip_cooldown(1000);
        secs.push(p.cooldown_remaining(1000));
    }
    assert_eq!(secs, vec![20, 40, 80, 160, 300, 300]);
    assert_eq!(p.cooldown_remaining(2000), 0);
    p.clear_cooldown();
    assert_eq!((p.fail_streak, p.cooldown_until), (0, 0));
}

#[test]
fn a_key_block_needs_evidence() {
    assert!(key_block_confirmed(false, 3, true, true, true));
    assert!(!key_block_confirmed(true, 9, true, true, true), "a track played: no block");
    assert!(!key_block_confirmed(false, 2, true, true, true));
    assert!(!key_block_confirmed(false, 3, false, true, true));
    assert!(failure_hint(true).starts_with("Spotify is refusing this account's audio keys"));
    assert_eq!(failure_hint(false), "re-authenticate if it persists (; → Re-authenticate).");
}

#[test]
fn a_premature_end_rebuffers_until_the_budget_is_spent() {
    let mut r = retries();
    r.sp_started = true;
    r.sp_pos_ms = 60_000;
    assert!(matches!(r.on_track_ended(200_000, 0), Ended::Rebuffer(Some(_))));
    assert!(!r.sp_started && r.stall_at == Some(700));
    assert!(matches!(r.on_track_ended(200_000, 10), Ended::Rebuffer(None)), "echoes fold in");
    r.stall_at = None;
    r.on_track_ended(200_000, 20);
    r.stall_at = None;
    r.on_track_ended(200_000, 30);
    r.stall_at = None;
    assert!(matches!(r.on_track_ended(200_000, 40), Ended::Advance), "one bad spot is skipped");
    r.sp_pos_ms = 195_000;
    assert!(matches!(r.on_track_ended(200_000, 50), Ended::Advance), "a genuine end");
    assert!(matches!(r.on_track_ended(0, 60), Ended::Advance), "unknown length");
}

#[test]
fn fetched_art_lands_only_where_still_wanted() {
    let mut s = state();
    s.artist_cover_url = Some("http://photo".into());
    assert_eq!(s.on_spotify_art("http://old"), ArtTarget::Stale);
    assert!(!s.dirty);
    assert_eq!(s.on_spotify_art("http://photo"), ArtTarget::ArtistPhoto);
    assert_eq!(s.on_spotify_art("http://cover"), ArtTarget::Cover);
    assert!(s.dirty);
}

#[test]
fn web_api_results_dispatch_to_their_transitions() {
    let mut s = state();
    let (a, n) = s.on_spotify_result(SpResult::Library { key: "home".into(), items: items(&["x"]), show_uris: vec![] });
    assert!(matches!(a, SessionAction::RestoreInitial) && n.is_none());
    assert_eq!(s.list.items, items(&["x"]));
    s.follows_section = true;
    let (a, n) = s.on_spotify_result(SpResult::Follow { uri: "spotify:show:z".into(), followed: true });
    assert!(matches!(a, SessionAction::LoadSection));
    assert_eq!(n.as_deref(), Some("✓ Following this"));
    let (a, _) = s.on_spotify_result(SpResult::ShowResolved { show_uri: None, name: String::new() });
    assert!(matches!(a, SessionAction::Notify(t) if t == "Couldn't find this show on Spotify"));
    let (a, _) = s.on_spotify_result(SpResult::ShowResolved { show_uri: Some("spotify:show:q".into()), name: "Q".into() });
    assert!(matches!(a, SessionAction::OpenShow { uri, name } if uri == "spotify:show:q" && name == "Q"));
    let (a, _) = s.on_spotify_result(SpResult::Error { key: "home".into(), msg: "boom".into() });
    assert!(matches!(a, SessionAction::Nothing));
    assert_eq!(s.list.note, "boom");
}

#[test]
fn session_events_are_drained_in_order() {
    let mut s = state();
    assert!(s.pump_spotify_session(vec![], "All").is_empty());
    assert!(!s.dirty);
    let acts = s.pump_spotify_session(
        vec![SessionEvent::Playing(100), SessionEvent::EndOfTrack, SessionEvent::Unavailable, SessionEvent::AudioKeyDenied],
        "All",
    );
    assert!(matches!(acts[0], SessionAction::Played));
    assert!(matches!(acts[1], SessionAction::TrackEnded), "it had started by then");
    assert!(matches!(acts[2], SessionAction::LoadFailed));
    assert!(matches!(acts[3], SessionAction::PlaybackBlocked));
    assert!(s.dirty);
}
