use lyrfin::lyrics::{active_lyrics_pane, lyrics_source_is_spotify, playback_elapsed, Lyrics, LyricsSlot};
use lyrfin::types::{Layout, LyricsPane};

fn lines(v: &[&str]) -> Vec<String> {
    v.iter().map(|s| s.to_string()).collect()
}

fn lyr(v: &[&str]) -> Lyrics {
    Lyrics { lines: lines(v), trans: vec![None; v.len()] }
}

#[test]
fn lyrics_follow_the_source_that_owns_the_view() {
    assert!(lyrics_source_is_spotify(Layout::Spotify, false, true));
    assert!(!lyrics_source_is_spotify(Layout::Spotify, true, false));
    assert!(lyrics_source_is_spotify(Layout::LyricsFocus, true, true), "a player view follows the audio");
    assert!(!lyrics_source_is_spotify(Layout::LyricsFocus, false, true));
    assert!(!lyrics_source_is_spotify(Layout::Dashboard, true, true), "home docks a local pane");
    assert!(!lyrics_source_is_spotify(Layout::Radio, true, true));
    assert_eq!(active_lyrics_pane(Layout::Concert, true, true), LyricsPane::Spotify);
    assert_eq!(active_lyrics_pane(Layout::Concert, false, true), LyricsPane::Local);
}

#[test]
fn a_pane_shows_only_lyrics_loaded_for_its_track() {
    let mut s = LyricsSlot::new();
    s.lyrics_for = Some("artist - song".into());
    s.pending = true;
    assert!(s.lyrics_pane_loading(Some("artist - song")));
    assert!(!s.lyrics_pane_loading(Some("other - tune")), "another source's fetch is not this pane's");
    assert!(!s.on_lyrics_result("other - tune", Some(lyr(&["la"]))), "a stale result is dropped");
    assert!(s.pending);
    assert!(s.on_lyrics_result("artist - song", Some(lyr(&["one", "two"]))));
    assert!(!s.pending);
    assert_eq!(s.lyrics_for_pane(Some("artist - song")).map(|l| l.lines.clone()), Some(lines(&["one", "two"])));
    assert!(s.lyrics_for_pane(Some("other - tune")).is_none());
    assert!(s.lyrics_for_pane(None).is_none());
    assert!(s.lyrics_pane_has_track(Some("x")) && !s.lyrics_pane_has_track(None));
    assert!(s.on_lyrics_result("artist - song", Some(lyr(&[]))));
    assert_eq!(s.lyrics_for_pane(Some("artist - song")).map(|l| l.lines.clone()), Some(lines(&["one", "two"])), "an empty parse keeps the lines");
    assert!(!s.needs_reload(Some("artist - song")), "switching back does not refetch");
    assert!(s.needs_reload(Some("other - tune")));
    assert!(s.needs_reload(None));
}

#[test]
fn machine_translations_fill_only_fresh_untranslated_lyrics() {
    let mut s = LyricsSlot::new();
    s.lyrics_for = Some("k".into());
    s.lyrics = Some(lyr(&["Hola", "Hello", "Adiós"]));
    s.translate_pending = true;
    assert!(!s.on_translate_result("k", "en", "en", None), "a failed lookup shows the untranslated lines");
    assert!(!s.translate_pending);
    assert!(s.on_translate_result("k", "de", "en", Some(lines(&["x", "y", "z"]))));
    assert!(s.lyrics.as_ref().unwrap().trans.iter().all(Option::is_none), "the target changed");
    s.on_translate_result("k", "en", "en", Some(lines(&[" Hi ", "Hello", "  "])));
    assert_eq!(
        s.lyrics.as_ref().unwrap().trans,
        vec![Some("Hi".to_string()), None, None],
        "a repeat of the line or an empty one is left out; a short translation leaves the rest"
    );
    s.on_translate_result("k", "en", "en", Some(lines(&["A", "B", "C"])));
    assert_eq!(s.lyrics.as_ref().unwrap().trans[0].as_deref(), Some("Hi"), "existing translations are kept");
}

#[test]
fn the_lyrics_clock_follows_the_playing_source_and_the_nudge() {
    assert_eq!(playback_elapsed(true, 5_000, 9_000, 0), 5_000);
    assert_eq!(playback_elapsed(false, 5_000, 9_000, 500), 8_500);
    assert_eq!(playback_elapsed(false, 5_000, 9_000, -500), 9_500);
    assert_eq!(playback_elapsed(true, 100, 0, 500), 0, "never below zero");
}
