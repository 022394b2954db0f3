//! Applying librespot session events to the Spotify state: one transition
//! per event, each returning what the caller still has to do (talk to the
//! engine or the session, schedule a reload, advance the queue).
//!
//! A result keyed to a list is applied only while that list is still the one
//! the view waits for; a result for an episode the user moved past is
//! dropped.

use vstd::prelude::*;
use crate::artistinfo::opt_view;
use crate::spotify::{auth_error_spec, browse_error_note, browse_note_spec, is_audio_auth_error, ShowMeta, SpArtist, SpRecovery};
use crate::text::{has_infix, push_str, str_contains, str_eq, string_from};

verus! {

/// The key under which the artist pane's own fetches arrive.
pub const ARTIST_PANE_KEY: &'static str = "@artist-pane";

/// The key under which a playlist's raw track list arrives for a removal.
pub const REMOVE_FETCH_KEY: &'static str = "@pl-remove";

/// Whether Spotify accepts the session's credentials for audio.
pub enum AudioAuth {
    Unknown,
    Accepted,
    /// Refused, with the reason shown to the user.
    Rejected(String),
}

/// The Spotify list the view shows.
pub struct SpList {
    /// The request the list waits for.
    pub key: String,
    pub loading: bool,
    pub note: String,
    /// The list's entries, by label.
    pub items: Vec<String>,
    pub sel: usize,
    /// Automatic reload schedule after a failed load.
    pub reload_attempts: u32,
    pub reload_at: Option<u64>,
    /// A scroll-triggered "load more" is in flight, paging has run out, and
    /// the page size asked for.
    pub loading_more: bool,
    pub exhausted: bool,
    pub limit: usize,
    /// The list is the Podcasts section.
    pub podcasts: bool,
}

/// The session side of Spotify playback.
pub struct SessionState {
    pub audio_auth: AudioAuth,
    pub recovery: SpRecovery,
    /// A librespot session exists.
    pub session_live: bool,
    /// The uri of the now-playing track or episode.
    pub now_uri: Option<String>,
    /// The now-playing track's artist name, as shown.
    pub now_artist: String,
    pub spotify_paused: bool,
    pub sp_started: bool,
    pub sp_pos_ms: u64,
    /// A track actually played on this account (so it is not blocked).
    pub played_ok: bool,
    /// Audio-key refusals seen.
    pub key_denials: u32,
    /// A pending automatic resume, key retry, and key retries made.
    pub resume_at: Option<u64>,
    pub keyretry_at: Option<u64>,
    pub keyretry_n: u32,
    /// Failed loads in a row, and the failure back-off deadline (0: none).
    pub sp_fail_streak: u32,
    pub sp_cooldown_until: u64,
    pub list: SpList,
    /// The artist pane: its details and top tracks.
    pub artist: Option<SpArtist>,
    pub artist_top: Vec<String>,
    /// The now-playing track is in the user's library.
    pub sp_saved: bool,
    /// The URL of the now-playing cover art.
    pub cover_url: Option<String>,
    /// The artist the pane asked the Web API about, and its photo's URL.
    pub artist_uri: Option<String>,
    pub artist_cover_url: Option<String>,
    /// The now-playing episode's show, and its fetched details.
    pub show_uri: Option<String>,
    pub show_meta: Option<ShowMeta>,
    /// The shows the user follows (no uri twice).
    pub followed_shows: Vec<String>,
    /// A follow toggle awaiting its answer: `(uri, name)`.
    pub follow_pending: Option<(String, String)>,
    /// The list is a followed-shows or followed-artists section.
    pub follows_section: bool,
    /// A login resume is in flight, and a token exists to resume with.
    pub resuming: bool,
    pub has_tokens: bool,
    /// The screen needs redrawing.
    pub dirty: bool,
}

/// What an event leaves for the caller.
pub enum SessionAction {
    Nothing,
    /// Re-authorize the audio credentials.
    HealAudioAuth,
    /// Apply a playlist removal with the fetched track uris.
    ApplyRemove { uris: Vec<String>, ok: bool },
    /// Stream the episode from this URL through the engine.
    StreamEpisode(String),
    /// Find the episode's public feed (or report it unplayable).
    ResolvePodcast,
    /// A track that played reached its end (or stalled).
    TrackEnded,
    /// The track failed to load.
    LoadFailed,
    /// Spotify refused the track's audio key.
    PlaybackBlocked,
    /// The session died: free the engine, schedule the reloads and the
    /// back-off, arm the automatic resume, and show the notice.
    ConnectFailed { notice: String },
    /// A track is playing: clear the block evidence and prefetch the next.
    Played,
    /// A browse failure that may clear up: schedule a reload.
    ScheduleReload,
    /// A fresh browse list landed: re-open a restored drill-in, or place the
    /// cursor at the top.
    RestoreInitial,
    /// Resume the login with the stored token.
    ResumeLogin,
    /// Re-check whether the now-playing track is saved.
    CheckSaved,
    /// Reload the current section.
    LoadSection,
    /// Drill into the show `uri`, named `name`.
    OpenShow { uri: String, name: String },
    /// Fetch the artist photo at this URL.
    FetchArtistPhoto(String),
    /// Show this notice.
    Notify(String),
    /// Show this error.
    NotifyError(String),
}

/// The reason shown when Spotify refuses the audio credentials.
pub open spec fn rejection_reason(msg: Seq<char>) -> Seq<char> {
    if has_infix(msg, "INVALID_CREDENTIALS"@) {
        "credentials not accepted for this app"@
    } else {
        "token exchange refused"@
    }
}

/// The note for a list that loaded empty.
pub open spec fn empty_note(podcasts: bool) -> Seq<char> {
    if podcasts {
        "No podcasts to browse here — they may not be available in your region."@
    } else {
        "Nothing here"@
    }
}

/// A cursor clamped to a list of `n` entries.
pub open spec fn clamp_sel(sel: usize, n: nat) -> usize {
    if n == 0 {
        0
    } else if sel < n {
        sel
    } else {
        (n - 1) as usize
    }
}

/// Whether every entry is the lone "browse all categories" link.
pub open spec fn only_link(items: Seq<String>, link: Seq<char>) -> bool {
    items.len() > 0 && forall|i: int| 0 <= i < items.len() ==> #[trigger] items[i]@ == link
}

/// The character sequences of a vector of strings.
pub open spec fn views(v: Seq<String>) -> Seq<Seq<char>> {
    v.map_values(|s: String| s@)
}

/// `s` without any occurrence of `x`.
pub open spec fn without(s: Seq<Seq<char>>, x: Seq<char>) -> Seq<Seq<char>>
    decreases s.len(),
{
    if s.len() == 0 {
        s
    } else if s.last() == x {
        without(s.drop_last(), x)
    } else {
        without(s.drop_last(), x).push(s.last())
    }
}

/// Whether the pending follow toggle is for `uri`.
pub open spec fn pending_is(p: Option<(String, String)>, uri: Seq<char>) -> bool {
    match p {
        Some((u, _)) => u@ == uri,
        None => false,
    }
}

/// The name of the pending follow toggle's show or artist.
pub open spec fn pending_name(p: Option<(String, String)>) -> Seq<char> {
    match p {
        Some((_, n)) => n@,
        None => Seq::empty(),
    }
}

/// The label of the entry that leads the Podcasts section into Spotify's
/// podcast charts and categories.
pub open spec fn podcast_hub_label() -> Seq<char> {
    "Browse Top Podcasts"@
}

/// What `SessionState::on_library` does: `n` is `o` after it.
pub open spec fn on_library_post(o: SessionState, n: SessionState, key: Seq<char>, items: Vec<String>, show_uris: Vec<String>, a: SessionAction) -> bool {
    &&& key != o.list.key@ ==> n.list == o.list && a is Nothing
        && n.followed_shows@ == o.followed_shows@
    &&& key == o.list.key@ ==> {
        let shown = if o.list.podcasts {
            seq![podcast_hub_label()] + views(items@)
        } else {
            views(items@)
        };
        &&& !n.list.loading
        &&& views(n.list.items@) == shown
        &&& n.list.note@ == if shown.len() == 0 {
            "Nothing here yet"@
        } else {
            Seq::<char>::empty()
        }
        &&& n.followed_shows@ == if o.list.podcasts {
            show_uris@
        } else {
            o.followed_shows@
        }
        &&& a is RestoreInitial
    }
    &&& n.dirty
}

/// What `SessionState::on_search` does: `n` is `o` after it.
pub open spec fn on_search_post(o: SessionState, n: SessionState, key: Seq<char>, tracks: Vec<String>, albums: Vec<String>, artists: Vec<String>, playlists: Vec<String>, shows: Vec<String>, a: SessionAction) -> bool {
    &&& key != o.list.key@ ==> n.list == o.list && a is Nothing
    &&& key == o.list.key@ ==> {
        let all = tracks@ + albums@ + artists@ + playlists@ + shows@;
        &&& !n.list.loading
        &&& n.list.items@ == all
        &&& n.list.note@ == if all.len() == 0 {
            "No results"@
        } else {
            Seq::<char>::empty()
        }
        &&& a is RestoreInitial
    }
    &&& n.dirty
}

/// What `SessionState::on_opened` does: `n` is `o` after it.
pub open spec fn on_opened_post(o: SessionState, n: SessionState, key: Seq<char>, items: Vec<String>, restored_sel: usize) -> bool {
    &&& key != o.list.key@ ==> n.list == o.list
    &&& key == o.list.key@ ==> {
        &&& !n.list.loading
        &&& n.list.items@ == items@
        &&& n.list.note@ == if items.len() == 0 {
            "Nothing to play here"@
        } else {
            Seq::<char>::empty()
        }
        &&& n.list.sel == restored_sel
    }
    &&& n.dirty
}

/// What `SessionState::on_saved` does: `n` is `o` after it.
pub open spec fn on_saved_post(o: SessionState, n: SessionState, uri: Seq<char>, saved: bool) -> bool {
    &&& n.sp_saved == if opt_view(o.now_uri) == Some(uri) {
        saved
    } else {
        o.sp_saved
    }
    &&& n.dirty
}

/// What `SessionState::on_follow` does: `n` is `o` after it.
pub open spec fn on_follow_post(o: SessionState, n: SessionState, uri: String, followed: bool, r: (String, bool)) -> bool {
    &&& followed ==> views(n.followed_shows@) == if views(
        o.followed_shows@,
    ).contains(uri@) {
        views(o.followed_shows@)
    } else {
        views(o.followed_shows@).push(uri@)
    }
    &&& !followed ==> views(n.followed_shows@) == without(
        views(o.followed_shows@),
        uri@,
    )
    &&& ({
        let mine = pending_is(o.follow_pending, uri@);
        let name = if mine {
            pending_name(o.follow_pending)
        } else {
            Seq::<char>::empty()
        };
        let label = if name.len() == 0 {
            "this"@
        } else {
            name
        };
        &&& r.0@ == if followed {
            "✓ Following "@ + label
        } else {
            "Unfollowed "@ + label
        }
        &&& mine ==> n.follow_pending is None
        &&& !mine ==> n.follow_pending == o.follow_pending
    })
    &&& r.1 == o.follows_section
    &&& n.dirty
}

/// What `SessionState::on_artist` does: `n` is `o` after it.
pub open spec fn on_artist_post(o: SessionState, n: SessionState, uri: Seq<char>, name: String, image: Option<String>, genres: String, followers: u64, a: SessionAction) -> bool {
    &&& opt_view(o.artist_uri) != Some(uri) ==> a is Nothing && n.artist
        == o.artist
    &&& opt_view(o.artist_uri) == Some(uri) ==> {
        &&& n.artist is Some
        &&& n.artist->0.name@ == name@
        &&& n.artist->0.followers == followers
        &&& n.artist->0.genres@ == if genres@.len() > 0 {
            genres@
        } else if o.artist is Some {
            o.artist->0.genres@
        } else {
            Seq::<char>::empty()
        }
        &&& o.artist is Some ==> n.artist->0.bio == o.artist->0.bio
            && n.artist->0.popularity == o.artist->0.popularity
        &&& opt_view(n.artist_cover_url) == opt_view(image)
        &&& match image {
            Some(u) => a matches SessionAction::FetchArtistPhoto(v) && v@ == u@,
            None => a is Nothing,
        }
    }
    &&& n.dirty
}

/// What `SessionState::on_show_meta` does: `n` is `o` after it.
pub open spec fn on_show_meta_post(o: SessionState, n: SessionState, uri: String, publisher: String, description: String) -> bool {
    &&& opt_view(o.show_uri) != Some(uri@) ==> n.show_meta == o.show_meta && n.dirty == o.dirty
    &&& opt_view(o.show_uri) == Some(uri@) ==> (n.show_meta matches Some(m)
        && m.uri@ == uri@ && m.publisher@ == publisher@ && m.description@
        == description@ && n.dirty)
}

/// What `SessionState::on_unauthorized` does: `n` is `o` after it.
pub open spec fn on_unauthorized_post(o: SessionState, n: SessionState, key: Seq<char>, a: SessionAction) -> bool {
    &&& ({
        let applies = key.len() == 0 || key == o.list.key@;
        let resume = applies && !o.resuming && o.has_tokens;
        &&& !applies ==> n.list == o.list && a is Nothing
            && n.resuming == o.resuming
        &&& applies ==> !n.list.loading
        &&& resume ==> a is ResumeLogin && n.resuming
            && n.list.note@ == "Refreshing session…"@
        &&& applies && !resume ==> a is Nothing && n.resuming
            == o.resuming && n.list.note == o.list.note
    })
    &&& n.list.items@ == o.list.items@
    &&& n.dirty
}

/// What `SessionState::on_error` does: `n` is `o` after it.
pub open spec fn on_error_post(o: SessionState, n: SessionState, key: Seq<char>, msg: String, a: SessionAction) -> bool {
    &&& key.len() == 0 ==> n.list == o.list && (a matches SessionAction::NotifyError(m) && m@ == msg@)
    &&& key.len() > 0 && key == o.list.key@ ==> !n.list.loading
        && n.list.note@ == msg@ && n.list.items@ == o.list.items@
        && a is Nothing
    &&& key.len() > 0 && key != o.list.key@ ==> n.list == o.list
        && a is Nothing
    &&& n.dirty
}

/// What `SessionState::on_connected` does: `n` is `o` after it.
pub open spec fn on_connected_post(o: SessionState, n: SessionState) -> bool {
    &&& n.audio_auth is Accepted
    &&& n.recovery == if o.recovery == SpRecovery::Reconnecting {
        SpRecovery::Reconnected
    } else {
        o.recovery
    }
    &&& n.session_live == o.session_live
    &&& n.sp_started == o.sp_started
    &&& n.dirty
}

/// What `SessionState::on_auth_rejected` does: `n` is `o` after it.
pub open spec fn on_auth_rejected_post(o: SessionState, n: SessionState, msg: Seq<char>, a: SessionAction) -> bool {
    &&& n.audio_auth matches AudioAuth::Rejected(r) && r@ == rejection_reason(msg)
    &&& !n.session_live
    &&& a is HealAudioAuth
    &&& n.dirty
}

/// What `SessionState::on_artist_meta` does: `n` is `o` after it.
pub open spec fn on_artist_meta_post(o: SessionState, n: SessionState, key: Seq<char>, popularity: u32, bio: String) -> bool {
    &&& key != ARTIST_PANE_KEY@ ==> n.artist == o.artist
    &&& key == ARTIST_PANE_KEY@ ==> n.artist is Some
    &&& key == ARTIST_PANE_KEY@ ==> ({
        let a = n.artist->0;
        let prev = o.artist;
        &&& a.popularity == popularity
        &&& a.name@ == if prev is Some && prev->0.name@.len() > 0 {
            prev->0.name@
        } else {
            o.now_artist@
        }
        &&& a.bio@ == if bio@.len() > 0 {
            bio@
        } else if prev is Some {
            prev->0.bio@
        } else {
            Seq::<char>::empty()
        }
        &&& prev is Some ==> a.genres == prev->0.genres && a.followers == prev->0.followers
        &&& prev is None ==> a.genres@.len() == 0 && a.followers == 0
    })
    &&& n.dirty
}

/// What `SessionState::on_tracks` does: `n` is `o` after it.
pub open spec fn on_tracks_post(o: SessionState, n: SessionState, key: Seq<char>, items: Vec<String>) -> bool {
    &&& key == ARTIST_PANE_KEY@ ==> n.artist_top@ == items@ && n.list
        == o.list
    &&& key != ARTIST_PANE_KEY@ && key == o.list.key@ ==> {
        &&& !n.list.loading
        &&& n.list.note@ == if items.len() == 0 {
            "Nothing to play here"@
        } else {
            Seq::<char>::empty()
        }
        &&& n.list.items@ == items@
        &&& n.list.sel == clamp_sel(o.list.sel, items.len() as nat)
        &&& n.list.key == o.list.key
        &&& n.artist_top@ == o.artist_top@
    }
    &&& key != ARTIST_PANE_KEY@ && key != o.list.key@ ==> n.list
        == o.list && n.artist_top@ == o.artist_top@
    &&& n.dirty
}

/// What `SessionState::on_playlist_uris` does: `n` is `o` after it.
pub open spec fn on_playlist_uris_post(o: SessionState, n: SessionState, key: Seq<char>, uris: Vec<String>, ok: bool, a: SessionAction) -> bool {
    &&& key == REMOVE_FETCH_KEY@ ==> (a matches SessionAction::ApplyRemove { uris: u, ok: o }
        && u@ == uris@ && o == ok)
    &&& key != REMOVE_FETCH_KEY@ ==> a is Nothing
    &&& n.list == o.list
    &&& n.dirty
}

/// What `SessionState::on_artist_page` does: `n` is `o` after it.
pub open spec fn on_artist_page_post(o: SessionState, n: SessionState, key: Seq<char>, items: Vec<String>) -> bool {
    &&& key == o.list.key@ ==> {
        &&& !n.list.loading
        &&& n.list.note@ == if items.len() == 0 {
            "Nothing here"@
        } else {
            Seq::<char>::empty()
        }
        &&& n.list.items@ == items@
        &&& n.list.sel == 0
    }
    &&& key != o.list.key@ ==> n.list == o.list
    &&& n.dirty
}

/// What `SessionState::on_episode_resolved` does: `n` is `o` after it.
pub open spec fn on_episode_resolved_post(o: SessionState, n: SessionState, uri: Seq<char>, url: Option<String>, a: SessionAction) -> bool {
    &&& opt_view(o.now_uri) != Some(uri) ==> a is Nothing
    &&& opt_view(o.now_uri) == Some(uri) ==> match url {
        Some(u) => a matches SessionAction::StreamEpisode(v) && v@ == u@,
        None => a is ResolvePodcast,
    }
    &&& n.list == o.list
    &&& n.sp_started == o.sp_started
    &&& n.dirty
}

/// What `SessionState::on_connect_error` does: `n` is `o` after it.
pub open spec fn on_connect_error_post(o: SessionState, n: SessionState, msg: Seq<char>, a: SessionAction) -> bool {
    &&& n.recovery == SpRecovery::Normal
    &&& !n.session_live
    &&& n.spotify_paused
    &&& !n.sp_started
    &&& opt_view(n.now_uri) == opt_view(o.now_uri)
    &&& o.list.loading ==> !n.list.loading && n.list.note@
        == "Couldn't reach Spotify — retrying…"@
    &&& !o.list.loading ==> n.list == o.list
    &&& n.list.items@ == o.list.items@
    &&& a matches SessionAction::ConnectFailed { notice } && notice@ == "Spotify playback: "@
        + msg
    &&& n.dirty
}

/// What `SessionState::on_playing` does: `n` is `o` after it.
pub open spec fn on_playing_post(o: SessionState, n: SessionState, position_ms: u64, a: SessionAction) -> bool {
    &&& n.sp_started
    &&& n.played_ok
    &&& n.key_denials == 0
    &&& n.resume_at is None
    &&& n.keyretry_at is None
    &&& n.keyretry_n == 0
    &&& n.sp_fail_streak == 0
    &&& n.sp_cooldown_until == 0
    &&& n.recovery == SpRecovery::Normal
    &&& n.sp_pos_ms == position_ms
    &&& n.spotify_paused == o.spotify_paused
    &&& a is Played
    &&& n.dirty
}

/// What `SessionState::on_paused` does: `n` is `o` after it.
pub open spec fn on_paused_post(o: SessionState, n: SessionState, position_ms: u64) -> bool {
    &&& n.sp_pos_ms == position_ms
    &&& n.spotify_paused == o.spotify_paused
    &&& n.sp_started == o.sp_started
    &&& n.dirty
}

/// What `SessionState::on_end_of_track` does: `n` is `o` after it.
pub open spec fn on_end_of_track_post(o: SessionState, n: SessionState, a: SessionAction) -> bool {
    &&& o.sp_started ==> a is TrackEnded
    &&& !o.sp_started ==> a is LoadFailed
    &&& n.sp_started == o.sp_started
    &&& n.dirty
}

/// What `SessionState::on_browse` does: `n` is `o` after it.
pub open spec fn on_browse_post(o: SessionState, n: SessionState, key: Seq<char>, items: Vec<String>, error: Option<String>, link: Seq<char>, a: SessionAction) -> bool {
    &&& key != o.list.key@ ==> n.list == o.list && a is Nothing
    &&& key == o.list.key@ ==> {
        &&& !n.list.loading
        &&& n.list.key == o.list.key
        &&& match error {
            Some(e) => {
                &&& n.list.items@.len() == 0
                &&& n.list.note@ == browse_note_spec(e@)
                &&& n.list.reload_attempts == o.list.reload_attempts
                &&& n.list.reload_at == o.list.reload_at
                &&& a is HealAudioAuth <==> auth_error_spec(e@)
                &&& a is ScheduleReload <==> (!auth_error_spec(e@) && !has_infix(
                    e@,
                    "PersistedQuery"@,
                ))
                &&& (a is HealAudioAuth || a is ScheduleReload || a is Nothing)
            },
            None => {
                &&& n.list.reload_attempts == 0
                &&& n.list.reload_at is None
                &&& if o.list.loading_more {
                    &&& !n.list.loading_more
                    &&& n.list.exhausted == (items.len()
                        <= o.list.items.len() || items.len()
                        < o.list.limit)
                    &&& n.list.items@ == items@
                    &&& n.list.sel == clamp_sel(
                        o.list.sel,
                        items.len() as nat,
                    )
                    &&& n.list.note@.len() == 0
                    &&& a is Nothing
                } else if items.len() == 0 || only_link(items@, link) {
                    &&& n.list.items@.len() == 0
                    &&& n.list.note@ == empty_note(o.list.podcasts)
                    &&& a is Nothing
                } else {
                    &&& n.list.items@ == items@
                    &&& n.list.note@.len() == 0
                    &&& a is RestoreInitial
                }
            },
        }
    }
    &&& n.dirty
}

/// An event from the librespot session.
pub enum SessionEvent {
    Connected,
    AudioAuthRejected(String),
    ArtistMeta { key: String, popularity: u32, bio: String },
    Tracks { key: String, items: Vec<String> },
    PlaylistUris { key: String, uris: Vec<String>, ok: bool },
    ArtistPage { key: String, items: Vec<String> },
    EpisodeResolved { uri: String, url: Option<String> },
    ConnectError(String),
    Playing(u64),
    Paused(u64),
    EndOfTrack,
    /// The track cannot be played.
    Unavailable,
    /// Spotify refused the track's audio key.
    AudioKeyDenied,
    Browse { key: String, items: Vec<String>, error: Option<String> },
}

/// What the session event `ev` does: `n` is `o` after it and `a` is what it
/// leaves for the caller (`link` being the "browse all categories" label).
pub open spec fn session_event_post(
    o: SessionState,
    n: SessionState,
    ev: SessionEvent,
    link: Seq<char>,
    a: SessionAction,
) -> bool {
    match ev {
        SessionEvent::Connected => on_connected_post(o, n) && a is Nothing,
        SessionEvent::AudioAuthRejected(m) => on_auth_rejected_post(o, n, m@, a),
        SessionEvent::ArtistMeta { key, popularity, bio } => on_artist_meta_post(
            o,
            n,
            key@,
            popularity,
            bio,
        ) && a is Nothing,
        SessionEvent::Tracks { key, items } => on_tracks_post(o, n, key@, items) && a is Nothing,
        SessionEvent::PlaylistUris { key, uris, ok } => on_playlist_uris_post(
            o,
            n,
            key@,
            uris,
            ok,
            a,
        ),
        SessionEvent::ArtistPage { key, items } => on_artist_page_post(o, n, key@, items)
            && a is Nothing,
        SessionEvent::EpisodeResolved { uri, url } => on_episode_resolved_post(
            o,
            n,
            uri@,
            url,
            a,
        ),
        SessionEvent::ConnectError(m) => on_connect_error_post(o, n, m@, a),
        SessionEvent::Playing(pos) => on_playing_post(o, n, pos, a),
        SessionEvent::Paused(pos) => on_paused_post(o, n, pos) && a is Nothing,
        SessionEvent::EndOfTrack => on_end_of_track_post(o, n, a),
        SessionEvent::Unavailable => n == SessionState { dirty: true, ..o } && a is LoadFailed,
        SessionEvent::AudioKeyDenied => n == SessionState { dirty: true, ..o }
            && a is PlaybackBlocked,
        SessionEvent::Browse { key, items, error } => on_browse_post(
            o,
            n,
            key@,
            items,
            error,
            link,
            a,
        ),
    }
}

/// A Spotify Web API result.
pub enum SpResult {
    /// The user's saved items for a section (with the uris of the saved
    /// shows, for the Podcasts section).
    Library { key: String, items: Vec<String>, show_uris: Vec<String> },
    Search {
        key: String,
        tracks: Vec<String>,
        albums: Vec<String>,
        artists: Vec<String>,
        playlists: Vec<String>,
        shows: Vec<String>,
    },
    /// A container's contents, to be shown at the restored row.
    Opened { key: String, items: Vec<String>, restored_sel: usize },
    Saved { uri: String, saved: bool },
    Follow { uri: String, followed: bool },
    /// The show of an episode, when found.
    ShowResolved { show_uri: Option<String>, name: String },
    Artist { uri: String, name: String, image: Option<String>, genres: String, followers: u64 },
    ShowMeta { uri: String, publisher: String, description: String },
    Unauthorized { key: String },
    Error { key: String, msg: String },
}

/// Which picture a fetched image is.
#[derive(Clone, Copy, PartialEq, Eq, Debug, Structural)]
pub enum ArtTarget {
    /// The now-playing cover.
    Cover,
    /// The artist pane's photo.
    ArtistPhoto,
    /// Neither any more: the track or artist moved on.
    Stale,
}

impl SessionState {
    /// A fetched image for `url`: the now-playing cover or the artist photo
    /// when it is still the one asked for (a redraw is due), else stale.
    pub fn on_spotify_art(&mut self, url: &str) -> (t: ArtTarget)
        ensures
            t == if opt_view(old(self).cover_url) == Some(url@) {
                ArtTarget::Cover
            } else if opt_view(old(self).artist_cover_url) == Some(url@) {
                ArtTarget::ArtistPhoto
            } else {
                ArtTarget::Stale
            },
            final(self).dirty == (old(self).dirty || t != ArtTarget::Stale),
            final(self).list == old(self).list,
    {
        let cover = match &self.cover_url {
            Some(u) => str_eq(u.as_str(), url),
            None => false,
        };
        if cover {
            self.dirty = true;
            return ArtTarget::Cover;
        }
        let photo = match &self.artist_cover_url {
            Some(u) => str_eq(u.as_str(), url),
            None => false,
        };
        if photo {
            self.dirty = true;
            return ArtTarget::ArtistPhoto;
        }
        ArtTarget::Stale
    }

    /// The session verified its credentials: audio works, and a fresh
    /// session of a reconnect-and-retry is now up.
    pub fn on_connected(&mut self)
        ensures
            on_connected_post(*old(self), *final(self)),
    {
        self.audio_auth = AudioAuth::Accepted;
        if self.recovery == SpRecovery::Reconnecting {
            self.recovery = SpRecovery::Reconnected;
        }
        self.dirty = true;
    }

    /// Spotify refused to exchange the session's credentials: the session has
    /// exited and the audio leg is re-authorized.
    pub fn on_auth_rejected(&mut self, msg: &str) -> (a: SessionAction)
        ensures
            on_auth_rejected_post(*old(self), *final(self), msg@, a),
    {
        let reason = if str_contains(msg, "INVALID_CREDENTIALS") {
            string_from("credentials not accepted for this app")
        } else {
            string_from("token exchange refused")
        };
        self.audio_auth = AudioAuth::Rejected(reason);
        self.session_live = false;
        self.dirty = true;
        SessionAction::HealAudioAuth
    }

    /// The artist's popularity and Spotify's own bio, merged into the artist
    /// pane (named after the now-playing artist when it had no name yet).
    /// Other keys are not the pane's.
    pub fn on_artist_meta(&mut self, key: &str, popularity: u32, bio: String)
        ensures
            on_artist_meta_post(*old(self), *final(self), key@, popularity, bio),
    {
        self.dirty = true;
        if !str_eq(key, ARTIST_PANE_KEY) {
            return;
        }
        let mut entry = match self.artist.take() {
            Some(a) => a,
            None => SpArtist::default(),
        };
        if entry.name.as_str().unicode_len() == 0 {
            entry.name = string_from(self.now_artist.as_str());
        }
        entry.popularity = popularity;
        if bio.as_str().unicode_len() > 0 {
            entry.bio = bio;
        }
        self.artist = Some(entry);
    }

    /// Tracks resolved for a container: the artist pane's top tracks, or the
    /// contents of the list the view waits for, keeping the cursor where it
    /// was (clamped to the new list). Other keys are stale.
    pub fn on_tracks(&mut self, key: &str, items: Vec<String>)
        ensures
            on_tracks_post(*old(self), *final(self), key@, items),
    {
        self.dirty = true;
        if str_eq(key, ARTIST_PANE_KEY) {
            self.artist_top = items;
            return;
        }
        if !str_eq(key, self.list.key.as_str()) {
            return;
        }
        self.list.loading = false;
        self.list.note = if items.len() == 0 {
            string_from("Nothing to play here")
        } else {
            String::new()
        };
        let n = items.len();
        self.list.items = items;
        self.list.sel = if n == 0 {
            0
        } else if self.list.sel < n {
            self.list.sel
        } else {
            n - 1
        };
    }

    /// A playlist's raw track list for a removal; other keys are not a
    /// removal's.
    pub fn on_playlist_uris(&mut self, key: &str, uris: Vec<String>, ok: bool) -> (a:
        SessionAction)
        ensures
            on_playlist_uris_post(*old(self), *final(self), key@, uris, ok, a),
    {
        self.dirty = true;
        if str_eq(key, REMOVE_FETCH_KEY) {
            SessionAction::ApplyRemove { uris, ok }
        } else {
            SessionAction::Nothing
        }
    }

    /// A grouped artist page for the list the view waits for: shown from the
    /// top. Other keys are stale.
    pub fn on_artist_page(&mut self, key: &str, items: Vec<String>)
        ensures
            on_artist_page_post(*old(self), *final(self), key@, items),
    {
        self.dirty = true;
        if !str_eq(key, self.list.key.as_str()) {
            return;
        }
        self.list.loading = false;
        self.list.note = if items.len() == 0 {
            string_from("Nothing here")
        } else {
            String::new()
        };
        self.list.items = items;
        self.list.sel = 0;
    }

    /// A podcast episode's playable source: stream an external MP3, else
    /// look for the episode's public feed. Ignored when the user moved to
    /// another track.
    pub fn on_episode_resolved(&mut self, uri: &str, url: Option<String>) -> (a: SessionAction)
        ensures
            on_episode_resolved_post(*old(self), *final(self), uri@, url, a),
    {
        self.dirty = true;
        let current = match &self.now_uri {
            Some(u) => str_eq(u.as_str(), uri),
            None => false,
        };
        if !current {
            return SessionAction::Nothing;
        }
        match url {
            Some(u) => SessionAction::StreamEpisode(u),
            None => SessionAction::ResolvePodcast,
        }
    }

    /// The session died. The now-playing overlay stays on screen but
    /// paused, any reconnect-and-retry is over, and a list still loading
    /// says a retry is coming.
    pub fn on_connect_error(&mut self, msg: &str) -> (a: SessionAction)
        ensures
            on_connect_error_post(*old(self), *final(self), msg@, a),
    {
        self.dirty = true;
        self.recovery = SpRecovery::Normal;
        self.session_live = false;
        self.spotify_paused = true;
        self.sp_started = false;
        if self.list.loading {
            self.list.loading = false;
            self.list.note = string_from("Couldn't reach Spotify — retrying…");
        }
        let mut notice = string_from("Spotify playback: ");
        push_str(&mut notice, msg);
        SessionAction::ConnectFailed { notice }
    }

    /// librespot started playing at `position_ms`: the account is provably
    /// not blocked, so every failure budget and pending retry resets. The
    /// pause flag is the user's and is left alone.
    pub fn on_playing(&mut self, position_ms: u64) -> (a: SessionAction)
        ensures
            on_playing_post(*old(self), *final(self), position_ms, a),
    {
        self.dirty = true;
        self.sp_started = true;
        self.played_ok = true;
        self.key_denials = 0;
        self.resume_at = None;
        self.sp_fail_streak = 0;
        self.sp_cooldown_until = 0;
        self.keyretry_at = None;
        self.keyretry_n = 0;
        self.recovery = SpRecovery::Normal;
        self.sp_pos_ms = position_ms;
        SessionAction::Played
    }

    /// librespot paused at `position_ms`; only the position moves.
    pub fn on_paused(&mut self, position_ms: u64)
        ensures
            on_paused_post(*old(self), *final(self), position_ms),
    {
        self.dirty = true;
        self.sp_pos_ms = position_ms;
    }

    /// librespot's end of track: for a track that actually played it is an
    /// end (or a stall) to judge; one that never started failed to load.
    pub fn on_end_of_track(&mut self) -> (a: SessionAction)
        ensures
            on_end_of_track_post(*old(self), *final(self), a),
    {
        self.dirty = true;
        if self.sp_started {
            SessionAction::TrackEnded
        } else {
            SessionAction::LoadFailed
        }
    }

    /// A browse or home feed for the list the view waits for. A failure
    /// empties the list and states its cause; a credential refusal heals
    /// itself, and anything but a retired query may clear up on a reload. A
    /// "load more" extends the list in place and stops paging once it stops
    /// growing. An empty feed, or one holding only the link `link` (the
    /// "browse all categories" entry), reads as empty. Other keys are stale.
    pub fn on_browse(&mut self, key: &str, items: Vec<String>, error: Option<String>, link: &str) -> (a:
        SessionAction)
        ensures
            on_browse_post(*old(self), *final(self), key@, items, error, link@, a),
    {
        self.dirty = true;
        if !str_eq(key, self.list.key.as_str()) {
            return SessionAction::Nothing;
        }
        self.list.loading = false;
        match error {
            Some(err) => {
                self.list.items = Vec::new();
                self.list.note = browse_error_note(err.as_str());
                if is_audio_auth_error(err.as_str()) {
                    SessionAction::HealAudioAuth
                } else if !str_contains(err.as_str(), "PersistedQuery") {
                    SessionAction::ScheduleReload
                } else {
                    SessionAction::Nothing
                }
            },
            None => {
                self.list.reload_attempts = 0;
                self.list.reload_at = None;
                if self.list.loading_more {
                    self.list.loading_more = false;
                    self.list.exhausted = items.len() <= self.list.items.len() || items.len()
                        < self.list.limit;
                    let n = items.len();
                    self.list.items = items;
                    self.list.sel = if n == 0 {
                        0
                    } else if self.list.sel < n {
                        self.list.sel
                    } else {
                        n - 1
                    };
                    self.list.note = String::new();
                    return SessionAction::Nothing;
                }
                let mut all_link = items.len() > 0;
                let mut i: usize = 0;
                while i < items.len()
                    invariant
                        i <= items.len(),
                        all_link == (items.len() > 0 && forall|j: int|
                            0 <= j < i ==> #[trigger] items@[j]@ == link@),
                    decreases items.len() - i,
                {
                    if !str_eq(items[i].as_str(), link) {
                        all_link = false;
                    }
                    i += 1;
                }
                if items.len() == 0 || all_link {
                    self.list.items = Vec::new();
                    self.list.note = if self.list.podcasts {
                        string_from(
                            "No podcasts to browse here — they may not be available in your region.",
                        )
                    } else {
                        string_from("Nothing here")
                    };
                    SessionAction::Nothing
                } else {
                    self.list.note = String::new();
                    self.list.items = items;
                    SessionAction::RestoreInitial
                }
            },
        }
    }

    /// The user's saved items for the section the view waits for. The
    /// Podcasts section records the shows as the followed ones (`show_uris`)
    /// and leads with the entry into the podcast hub. Other keys are stale.
    pub fn on_library(&mut self, key: &str, items: Vec<String>, show_uris: Vec<String>) -> (a:
        SessionAction)
        ensures
            on_library_post(*old(self), *final(self), key@, items, show_uris, a),
    {
        self.dirty = true;
        if !str_eq(key, self.list.key.as_str()) {
            return SessionAction::Nothing;
        }
        self.list.loading = false;
        let mut items = items;
        let ghost orig = items@;
        if self.list.podcasts {
            self.followed_shows = show_uris;
            let hub = string_from("Browse Top Podcasts");
            items.insert(0, hub);
            assert(views(items@) =~= seq![podcast_hub_label()] + views(orig));
        }
        self.list.note = if items.len() == 0 {
            string_from("Nothing here yet")
        } else {
            String::new()
        };
        self.list.items = items;
        SessionAction::RestoreInitial
    }

    /// Search results for the search the view waits for: tracks, then
    /// albums, artists, playlists and shows. Other keys are stale.
    pub fn on_search(
        &mut self,
        key: &str,
        tracks: Vec<String>,
        albums: Vec<String>,
        artists: Vec<String>,
        playlists: Vec<String>,
        shows: Vec<String>,
    ) -> (a: SessionAction)
        ensures
            on_search_post(*old(self), *final(self), key@, tracks, albums, artists, playlists, shows, a),
    {
        self.dirty = true;
        if !str_eq(key, self.list.key.as_str()) {
            return SessionAction::Nothing;
        }
        self.list.loading = false;
        let mut items = tracks;
        let mut albums = albums;
        let mut artists = artists;
        let mut playlists = playlists;
        let mut shows = shows;
        items.append(&mut albums);
        items.append(&mut artists);
        items.append(&mut playlists);
        items.append(&mut shows);
        self.list.note = if items.len() == 0 {
            string_from("No results")
        } else {
            String::new()
        };
        self.list.items = items;
        SessionAction::RestoreInitial
    }

    /// A drilled-into container's contents for the list the view waits for,
    /// with the cursor at `restored_sel` (a restored position, else the top).
    /// Other keys are stale.
    pub fn on_opened(&mut self, key: &str, items: Vec<String>, restored_sel: usize)
        ensures
            on_opened_post(*old(self), *final(self), key@, items, restored_sel),
    {
        self.dirty = true;
        if !str_eq(key, self.list.key.as_str()) {
            return;
        }
        self.list.loading = false;
        self.list.note = if items.len() == 0 {
            string_from("Nothing to play here")
        } else {
            String::new()
        };
        self.list.items = items;
        self.list.sel = restored_sel;
    }

    /// Whether `uri` is saved in the library, adopted only while it is still
    /// the playing track.
    pub fn on_saved(&mut self, uri: &str, saved: bool)
        ensures
            on_saved_post(*old(self), *final(self), uri@, saved),
    {
        self.dirty = true;
        let current = match &self.now_uri {
            Some(u) => str_eq(u.as_str(), uri),
            None => false,
        };
        if current {
            self.sp_saved = saved;
        }
    }

    /// A follow toggle of `uri` went through: the followed-shows cache
    /// follows it at once, the notice names the show or artist from the
    /// pending request when it is this one (else "this"), and a followed
    /// list being viewed reloads.
    pub fn on_follow(&mut self, uri: String, followed: bool) -> (r: (String, bool))
        ensures
            on_follow_post(*old(self), *final(self), uri, followed, r),
    {
        self.dirty = true;
        let n = self.followed_shows.len();
        let mut kept: Vec<String> = Vec::new();
        let mut present = false;
        let mut i: usize = 0;
        while i < n
            invariant
                i <= n,
                n == self.followed_shows.len(),
                self.followed_shows@ == old(self).followed_shows@,
                views(kept@) == without(views(self.followed_shows@.take(i as int)), uri@),
                present == views(self.followed_shows@.take(i as int)).contains(uri@),
            decreases n - i,
        {
            let u = &self.followed_shows[i];
            proof {
                assert(views(self.followed_shows@.take(i as int + 1)).drop_last() =~= views(
                    self.followed_shows@.take(i as int),
                ));
                assert(views(self.followed_shows@.take(i as int + 1)).last() == u@);
                let prev = views(self.followed_shows@.take(i as int));
                let next = views(self.followed_shows@.take(i as int + 1));
                assert(next =~= prev.push(u@));
                if prev.contains(uri@) {
                    let j = choose|j: int| 0 <= j < prev.len() && prev[j] == uri@;
                    assert(next[j] == uri@);
                }
                if u@ == uri@ {
                    assert(next[i as int] == uri@);
                }
                if next.contains(uri@) {
                    let j = choose|j: int| 0 <= j < next.len() && next[j] == uri@;
                    if j < i {
                        assert(prev[j] == uri@);
                    }
                }
            }
            if str_eq(u.as_str(), uri.as_str()) {
                present = true;
            } else {
                kept.push(string_from(u.as_str()));
            }
            i += 1;
        }
        assert(self.followed_shows@.take(n as int) == self.followed_shows@);
        if followed {
            if !present {
                let c = string_from(uri.as_str());
                self.followed_shows.push(c);
                assert(views(self.followed_shows@) =~= views(old(self).followed_shows@).push(
                    uri@,
                ));
            }
        } else {
            self.followed_shows = kept;
        }
        let mut pending: Option<(String, String)> = None;
        std::mem::swap(&mut pending, &mut self.follow_pending);
        let name = match pending {
            Some((u, nm)) => {
                if str_eq(u.as_str(), uri.as_str()) {
                    nm
                } else {
                    self.follow_pending = Some((u, nm));
                    String::new()
                }
            },
            None => String::new(),
        };
        let mut text = if followed {
            string_from("✓ Following ")
        } else {
            string_from("Unfollowed ")
        };
        if name.as_str().unicode_len() == 0 {
            push_str(&mut text, "this");
        } else {
            push_str(&mut text, name.as_str());
        }
        (text, self.follows_section)
    }

    /// The artist pane's Web API details, merged over whatever the session
    /// already filled (its genres are kept when the API sends none), with
    /// the photo to fetch. Ignored when the now-playing artist changed.
    pub fn on_artist(
        &mut self,
        uri: &str,
        name: String,
        image: Option<String>,
        genres: String,
        followers: u64,
    ) -> (a: SessionAction)
        ensures
            on_artist_post(*old(self), *final(self), uri@, name, image, genres, followers, a),
    {
        self.dirty = true;
        let current = match &self.artist_uri {
            Some(u) => str_eq(u.as_str(), uri),
            None => false,
        };
        if !current {
            return SessionAction::Nothing;
        }
        let mut entry = match self.artist.take() {
            Some(a) => a,
            None => SpArtist::default(),
        };
        entry.name = name;
        entry.followers = followers;
        if genres.as_str().unicode_len() > 0 {
            entry.genres = genres;
        }
        self.artist = Some(entry);
        match image {
            Some(u) => {
                self.artist_cover_url = Some(string_from(u.as_str()));
                SessionAction::FetchArtistPhoto(u)
            },
            None => {
                self.artist_cover_url = None;
                SessionAction::Nothing
            },
        }
    }

    /// The now-playing episode's show details, kept only while it is still
    /// that show.
    pub fn on_show_meta(&mut self, uri: String, publisher: String, description: String)
        ensures
            on_show_meta_post(*old(self), *final(self), uri, publisher, description),
    {
        let current = match &self.show_uri {
            Some(u) => str_eq(u.as_str(), uri.as_str()),
            None => false,
        };
        if !current {
            return;
        }
        self.show_meta = Some(ShowMeta { uri, publisher, description });
        self.dirty = true;
    }

    /// The Web API refused the token. For a control action (empty key) or
    /// the list the view waits for, loading stops and, unless a resume is
    /// already in flight, a stored token is resumed once. Other keys are
    /// stale.
    pub fn on_unauthorized(&mut self, key: &str) -> (a: SessionAction)
        ensures
            on_unauthorized_post(*old(self), *final(self), key@, a),
    {
        self.dirty = true;
        if key.unicode_len() > 0 && !str_eq(key, self.list.key.as_str()) {
            return SessionAction::Nothing;
        }
        self.list.loading = false;
        if !self.resuming && self.has_tokens {
            self.list.note = string_from("Refreshing session…");
            self.resuming = true;
            SessionAction::ResumeLogin
        } else {
            SessionAction::Nothing
        }
    }

    /// A Web API error. An empty key marks a control action (like, save): it
    /// shows as an error, after which the caller re-checks whether the
    /// playing track is saved (the heart was optimistic). A list's error
    /// replaces its note. Other keys are
    /// stale.
    pub fn on_error(&mut self, key: &str, msg: String) -> (a: SessionAction)
        ensures
            on_error_post(*old(self), *final(self), key@, msg, a),
    {
        self.dirty = true;
        if key.unicode_len() == 0 {
            return SessionAction::NotifyError(msg);
        }
        if str_eq(key, self.list.key.as_str()) {
            self.list.loading = false;
            self.list.note = msg;
        }
        SessionAction::Nothing
    }
}

/// How long (milliseconds) the queue waits after the last next/previous
/// press before loading the track it landed on.
pub const SKIP_DEBOUNCE_MS: u64 = 250;

/// Debounced skipping through the Spotify queue: a burst of presses previews
/// each landing row at once but loads only the track finally landed on, so
/// only that one asks for an audio key.
pub struct SkipState {
    /// The queue's length, and the playing index.
    pub queue_len: usize,
    pub idx: usize,
    /// The landing index of a burst, and when it loads (milliseconds).
    pub target: Option<usize>,
    pub at: Option<u64>,
    /// The queue row shown as selected.
    pub queue_sel: usize,
    /// Failed loads in a row, and the recovery state.
    pub fail_streak: u32,
    pub recovery: SpRecovery,
    pub dirty: bool,
}

impl SkipState {
    /// The indices stay inside the queue.
    pub open spec fn wf(&self) -> bool {
        &&& self.idx < self.queue_len || self.queue_len == 0
        &&& self.target matches Some(t) ==> t < self.queue_len
    }

    /// Next/previous by `delta` at time `now`: the landing index moves on
    /// from a pending burst's (else from the playing track), wrapping, is
    /// selected at once, and loads `SKIP_DEBOUNCE_MS` later. The result is
    /// the landing index (none for an empty queue).
    pub fn track(&mut self, delta: i32, now: u64) -> (landing: Option<usize>)
        requires
            old(self).wf(),
            now <= u64::MAX - SKIP_DEBOUNCE_MS,
        ensures
            final(self).wf(),
            old(self).queue_len == 0 ==> landing is None && *final(self) == *old(self),
            old(self).queue_len > 0 ==> {
                let base = match old(self).target {
                    Some(t) => t,
                    None => old(self).idx,
                };
                let t = skip_landing(base as int, delta as int, old(self).queue_len as int) as usize;
                &&& landing == Some(t)
                &&& final(self).target == Some(t)
                &&& final(self).at == Some((now + SKIP_DEBOUNCE_MS) as u64)
                &&& final(self).queue_sel == t
                &&& final(self).idx == old(self).idx
                &&& final(self).queue_len == old(self).queue_len
                &&& final(self).dirty
            },
    {
        let n = self.queue_len;
        if n == 0 {
            return None;
        }
        let base: usize = match self.target {
            Some(t) => t,
            None => self.idx,
        };
        let nn: u128 = n as u128;
        let cur: u128 = base as u128;
        let k: u128 = if delta >= 0 {
            (delta as u128) % nn
        } else {
            let a: u128 = ((0i64 - delta as i64) as u128) % nn;
            (nn - a) % nn
        };
        let t128: u128 = (cur + k) % nn;
        proof {
            let (c, d, m) = (cur as int, delta as int, nn as int);
            if d >= 0 {
                vstd::arithmetic::div_mod::lemma_add_mod_noop_right(c, d, m);
            } else {
                let a = (-d) % m;
                let q = (-d) / m;
                vstd::arithmetic::div_mod::lemma_add_mod_noop_right(c, m - a, m);
                vstd::arithmetic::div_mod::lemma_mod_add_multiples_vanish(c - a, m);
                vstd::arithmetic::div_mod::lemma_fundamental_div_mod(-d, m);
                vstd::arithmetic::div_mod::lemma_mod_multiples_vanish(q, c + d, m);
                assert(m * q + (c + d) == c - a);
            }
        }
        let t = t128 as usize;
        self.target = Some(t);
        self.at = Some(now + SKIP_DEBOUNCE_MS);
        self.queue_sel = t;
        self.dirty = true;
        Some(t)
    }

    /// At time `now`, once the burst has settled: the index to load (with a
    /// fresh failure budget), or none while waiting or with nothing pending.
    pub fn tick(&mut self, now: u64) -> (load: Option<usize>)
        requires
            old(self).wf(),
        ensures
            final(self).wf(),
            (old(self).at is None || now < old(self).at->0) ==> load is None && *final(self)
                == *old(self),
            (old(self).at is Some && now >= old(self).at->0) ==> {
                &&& final(self).at is None
                &&& final(self).target is None
                &&& load == if old(self).target is Some && old(self).queue_len > 0 {
                    old(self).target
                } else {
                    None
                }
                &&& load is Some ==> final(self).fail_streak == 0 && final(self).recovery
                    == SpRecovery::Normal
                &&& load is None ==> final(self).fail_streak == old(self).fail_streak
                    && final(self).recovery == old(self).recovery
            },
    {
        match self.at {
            None => {
                return None;
            },
            Some(at) => {
                if now < at {
                    return None;
                }
            },
        }
        self.at = None;
        let t = self.target;
        self.target = None;
        match t {
            None => None,
            Some(i) => {
                if self.queue_len == 0 {
                    return None;
                }
                self.fail_streak = 0;
                self.recovery = SpRecovery::Normal;
                Some(i)
            },
        }
    }
}

/// The queue row `delta` rows on from `base`, wrapping over `n` rows.
pub open spec fn skip_landing(base: int, delta: int, n: int) -> int {
    (base + delta) % n
}

/// A burst of skips loads only where it lands: pressing next `a` then `b`
/// rows quickly lands where one press of `a + b` rows would, so the one
/// track loaded when the burst settles is that one.
pub proof fn lemma_skip_burst_lands_once(idx: int, a: int, b: int, n: int)
    requires
        n > 0,
        0 <= idx < n,
    ensures
        skip_landing(skip_landing(idx, a, n), b, n) == skip_landing(idx, a + b, n),
{
    vstd::arithmetic::div_mod::lemma_add_mod_noop(idx + a, b, n);
    vstd::arithmetic::div_mod::lemma_add_mod_noop_right((idx + a) % n, b, n);
    vstd::arithmetic::div_mod::lemma_mod_twice(idx + a, n);
}

/// Quick retries of a track whose audio key was throttled, at most this
/// many per track.
pub const KEY_RETRY_MAX: u8 = 2;

/// The delay (milliseconds) before a throttled key is retried.
pub const KEY_RETRY_DELAY_MS: u64 = 900;

/// Re-opens of a stalled episode stream, at most this many per stall spot.
pub const STALL_RETRY_MAX: u8 = 3;

/// Progress (milliseconds) past the last stall that refills the re-open
/// budget.
pub const STALL_PROGRESS_MS: u64 = 10_000;

/// Seconds without engine progress after which a streamed episode counts as
/// stalled.
pub const STREAM_STALL_SECS: u64 = 12;

/// The retry timers of Spotify playback.
pub struct Retries {
    /// The now-playing track or episode exists.
    pub has_track: bool,
    pub sp_started: bool,
    pub sp_stream: bool,
    pub spotify_paused: bool,
    /// The position (milliseconds).
    pub sp_pos_ms: u64,
    /// A librespot session exists.
    pub session_live: bool,
    pub recovery: SpRecovery,
    /// A pending key retry (milliseconds) and the retries made.
    pub keyretry_at: Option<u64>,
    pub keyretry_n: u8,
    /// A pending in-place re-buffer (milliseconds).
    pub stall_at: Option<u64>,
    /// Stream re-opens made, and the position of the last stall.
    pub stall_n: u8,
    pub stall_pos_ms: u64,
    /// A scrub or skip is in flight.
    pub seeking: bool,
    pub skipping: bool,
    /// A back-off resume deadline (Unix seconds).
    pub resume_at: Option<u64>,
    /// UI ticks: now, and at the last engine progress.
    pub tick: u64,
    pub last_audio_progress: u64,
}

/// What a retry timer asks of the caller.
pub enum RetryAction {
    Nothing,
    /// Re-issue the now-playing track at this position (milliseconds).
    Reissue(u64),
    /// Re-open the episode stream at this position, with this notice.
    Reopen { pos_ms: u64, notice: String },
    /// Paused after a dead stream; show this notice.
    GiveUp(String),
    /// Resume on a fresh session, with this notice.
    Resume(String),
}

impl Retries {
    /// A throttled audio key: a retry pending already absorbs the echo
    /// (`true`); otherwise one is armed for `now + KEY_RETRY_DELAY_MS` while
    /// the budget lasts and a session exists (`true`, with the notice to
    /// show), else the caller escalates (`false`).
    pub fn arm_key_retry(&mut self, now: u64) -> (r: (bool, Option<String>))
        requires
            now <= u64::MAX - KEY_RETRY_DELAY_MS,
        ensures
            old(self).keyretry_at is Some ==> r.0 && r.1 is None && *final(self) == *old(self),
            old(self).keyretry_at is None && (old(self).keyretry_n >= KEY_RETRY_MAX
                || !old(self).session_live) ==> !r.0 && r.1 is None && *final(self) == *old(self),
            old(self).keyretry_at is None && old(self).keyretry_n < KEY_RETRY_MAX
                && old(self).session_live ==> {
                &&& r.0
                &&& r.1 matches Some(t) && t@ == "Spotify throttled the track key — retrying…"@
                &&& final(self).keyretry_n == old(self).keyretry_n + 1
                &&& final(self).keyretry_at == Some((now + KEY_RETRY_DELAY_MS) as u64)
            },
    {
        if self.keyretry_at.is_some() {
            return (true, None);
        }
        if self.keyretry_n >= KEY_RETRY_MAX || !self.session_live {
            return (false, None);
        }
        self.keyretry_n = self.keyretry_n + 1;
        self.keyretry_at = Some(now + KEY_RETRY_DELAY_MS);
        (true, Some(string_from("Spotify throttled the track key — retrying…")))
    }

    /// A due key retry re-issues the track at its position, unless it
    /// recovered on its own, a stream took over, or nothing is playing.
    pub fn tick_key_retry(&mut self, now: u64) -> (a: RetryAction)
        ensures
            (old(self).keyretry_at is None || now < old(self).keyretry_at->0) ==> a is Nothing
                && *final(self) == *old(self),
            (old(self).keyretry_at is Some && now >= old(self).keyretry_at->0) ==> {
                &&& final(self).keyretry_at is None
                &&& final(self).keyretry_n == old(self).keyretry_n
                &&& if !old(self).sp_started && !old(self).sp_stream && old(self).has_track {
                    a matches RetryAction::Reissue(p) && p == old(self).sp_pos_ms
                } else {
                    a is Nothing
                }
            },
    {
        match self.keyretry_at {
            None => return RetryAction::Nothing,
            Some(at) => {
                if now < at {
                    return RetryAction::Nothing;
                }
            },
        }
        self.keyretry_at = None;
        if self.sp_started || self.sp_stream || !self.has_track {
            return RetryAction::Nothing;
        }
        RetryAction::Reissue(self.sp_pos_ms)
    }

    /// A due in-place re-buffer re-issues the track where it stalled, unless
    /// the overlay stopped trying to play it (recovered, paused, a stream
    /// took over, or a manual skip is pending, which wins).
    pub fn tick_stall(&mut self, now: u64) -> (a: RetryAction)
        ensures
            (old(self).stall_at is None || now < old(self).stall_at->0) ==> a is Nothing
                && *final(self) == *old(self),
            (old(self).stall_at is Some && now >= old(self).stall_at->0) ==> {
                &&& final(self).stall_at is None
                &&& if !old(self).sp_started && !old(self).sp_stream && !old(self).spotify_paused
                    && !old(self).skipping && old(self).has_track {
                    a matches RetryAction::Reissue(p) && p == old(self).sp_pos_ms
                } else {
                    a is Nothing
                }
            },
    {
        match self.stall_at {
            None => return RetryAction::Nothing,
            Some(at) => {
                if now < at {
                    return RetryAction::Nothing;
                }
            },
        }
        self.stall_at = None;
        if self.sp_started || self.sp_stream || self.spotify_paused || self.skipping
            || !self.has_track {
            return RetryAction::Nothing;
        }
        RetryAction::Reissue(self.sp_pos_ms)
    }

    /// The watchdog of a streamed episode meant to be playing (no scrub or
    /// skip in flight): progress well past the last stall refills the
    /// budget; after `window` ticks without engine progress the stream is
    /// re-opened where it is, and once the budget is spent it pauses
    /// instead.
    pub fn tick_stream_watchdog(&mut self, window: u64) -> (a: RetryAction)
        ensures
            ({
                let active = old(self).sp_stream && !old(self).spotify_paused && old(self).has_track
                    && !old(self).seeking && !old(self).skipping;
                let refill = old(self).sp_pos_ms > old(self).stall_pos_ms + STALL_PROGRESS_MS;
                let n = if refill {
                    0
                } else {
                    old(self).stall_n
                };
                let idle = if old(self).tick >= old(self).last_audio_progress {
                    old(self).tick - old(self).last_audio_progress
                } else {
                    0
                };
                let stalled = idle >= window;
                &&& !active ==> a is Nothing && *final(self) == *old(self)
                &&& active && !stalled ==> a is Nothing && final(self).stall_n == n
                    && !final(self).spotify_paused
                &&& active && stalled && n >= STALL_RETRY_MAX ==> (a matches RetryAction::GiveUp(t)
                    && t@ == "Episode stream stalled — paused. Press space to retry."@)
                    && final(self).spotify_paused && !final(self).sp_started && final(self).stall_n
                    == 0
                &&& active && stalled && n < STALL_RETRY_MAX ==> (a matches RetryAction::Reopen {
                    pos_ms,
                    notice,
                } && pos_ms == old(self).sp_pos_ms && notice@
                    == "Episode stream stalled — reconnecting…"@) && final(self).stall_n == n + 1
                    && final(self).stall_pos_ms == old(self).sp_pos_ms
                    && final(self).last_audio_progress == old(self).tick
            }),
    {
        if !self.sp_stream || self.spotify_paused || !self.has_track || self.seeking
            || self.skipping {
            return RetryAction::Nothing;
        }
        if self.stall_pos_ms <= u64::MAX - STALL_PROGRESS_MS && self.sp_pos_ms > self.stall_pos_ms
            + STALL_PROGRESS_MS {
            self.stall_n = 0;
            self.stall_pos_ms = self.sp_pos_ms;
        }
        let idle = if self.tick >= self.last_audio_progress {
            self.tick - self.last_audio_progress
        } else {
            0
        };
        if idle < window {
            return RetryAction::Nothing;
        }
        if self.stall_n >= STALL_RETRY_MAX {
            self.spotify_paused = true;
            self.sp_started = false;
            self.stall_n = 0;
            return RetryAction::GiveUp(
                string_from("Episode stream stalled — paused. Press space to retry."),
            );
        }
        self.stall_n = self.stall_n + 1;
        self.stall_pos_ms = self.sp_pos_ms;
        self.last_audio_progress = self.tick;
        RetryAction::Reopen {
            pos_ms: self.sp_pos_ms,
            notice: string_from("Episode stream stalled — reconnecting…"),
        }
    }

    /// Once a failure back-off has elapsed (at Unix time `now`), playback
    /// resumes on a fresh session, unless nothing is loaded or the user or a
    /// stream took over meanwhile.
    pub fn tick_cooldown_resume(&mut self, now: u64) -> (a: RetryAction)
        ensures
            (old(self).resume_at is None || now < old(self).resume_at->0) ==> a is Nothing
                && *final(self) == *old(self),
            (old(self).resume_at is Some && now >= old(self).resume_at->0) ==> {
                let go = old(self).has_track && !old(self).sp_started && !old(self).sp_stream
                    && old(self).spotify_paused;
                &&& final(self).resume_at is None
                &&& go ==> (a matches RetryAction::Resume(t) && t@
                    == "Spotify back-off elapsed — resuming…"@) && !final(self).session_live
                    && final(self).recovery == SpRecovery::Normal
                &&& !go ==> a is Nothing && final(self).session_live == old(self).session_live
            },
    {
        match self.resume_at {
            None => return RetryAction::Nothing,
            Some(at) => {
                if now < at {
                    return RetryAction::Nothing;
                }
            },
        }
        self.resume_at = None;
        if !self.has_track || self.sp_started || self.sp_stream || !self.spotify_paused {
            return RetryAction::Nothing;
        }
        self.session_live = false;
        self.recovery = SpRecovery::Normal;
        RetryAction::Resume(string_from("Spotify back-off elapsed — resuming…"))
    }
}

/// The delay (milliseconds) before a stalled track is re-buffered in place.
pub const STALL_RETRY_DELAY_MS: u64 = 700;

/// How close (milliseconds) to its length a track must have played for its
/// end to count as a genuine end rather than a stall.
pub const END_SLACK_MS: u64 = 6_000;

/// Audio-key refusals, with no track ever playing, that confirm an
/// account-level block.
pub const KEY_BLOCK_CONFIRM: u16 = 3;

/// What happens after the last track of the queue.
#[derive(Clone, Copy, PartialEq, Eq, Debug, Structural)]
pub enum Repeat {
    /// Stop at the end.
    Off,
    /// Wrap to the start.
    All,
    /// Replay the same track.
    One,
}

/// The queue index that plays next after `idx` in a queue of `len`.
pub open spec fn next_index_spec(len: nat, idx: nat, repeat: Repeat) -> Option<nat> {
    if len == 0 {
        None
    } else if repeat == Repeat::One {
        Some(idx)
    } else if idx + 1 < len {
        Some(idx + 1)
    } else if repeat == Repeat::All {
        Some(0)
    } else {
        None
    }
}

/// The queue index that plays next: the same track under repeat-one, the
/// following one, or the first after the last under repeat-all; none at the
/// end of the queue otherwise, or for an empty queue.
pub fn next_index(len: usize, idx: usize, repeat: Repeat) -> (r: Option<usize>)
    ensures
        match r {
            Some(i) => next_index_spec(len as nat, idx as nat, repeat) == Some(i as nat),
            None => next_index_spec(len as nat, idx as nat, repeat) is None,
        },
{
    if len == 0 {
        None
    } else if repeat == Repeat::One {
        Some(idx)
    } else if idx < len - 1 {
        Some(idx + 1)
    } else if repeat == Repeat::All {
        Some(0)
    } else {
        None
    }
}

/// What the end of a track leads to.
#[derive(Clone, Copy, PartialEq, Eq, Debug, Structural)]
pub enum Advance {
    /// Nothing: an empty queue, or a manual skip is pending and wins.
    Nothing,
    /// Play the queue track at this index.
    Play(usize),
    /// The end of the queue: stop, paused at the end.
    Stop,
}

/// Auto-advance when a track ends, honouring repeat.
pub fn advance(len: usize, idx: usize, repeat: Repeat, skip_pending: bool) -> (a: Advance)
    ensures
        len == 0 || skip_pending ==> a == Advance::Nothing,
        len > 0 && !skip_pending ==> match next_index_spec(len as nat, idx as nat, repeat) {
            Some(i) => a == Advance::Play(i as usize),
            None => a == Advance::Stop,
        },
{
    if len == 0 || skip_pending {
        return Advance::Nothing;
    }
    match next_index(len, idx, repeat) {
        Some(i) => Advance::Play(i),
        None => Advance::Stop,
    }
}

/// The track an end advances to is the one announced as next: with no skip
/// pending, advancing plays exactly `next_index`, and stops exactly where
/// there is none.
pub proof fn lemma_advance_plays_the_announced_next(len: nat, idx: nat, repeat: Repeat)
    requires
        len > 0,
        idx < len,
    ensures
        next_index_spec(len, idx, repeat) matches Some(i) ==> i < len,
        next_index_spec(len, idx, repeat) is None ==> repeat == Repeat::Off && idx + 1 == len,
{
}

/// The failure back-off after `streak` failures in a row: 20 seconds,
/// doubling, capped at five minutes.
pub open spec fn cooldown_secs(streak: u32) -> u64 {
    if streak <= 1 {
        20
    } else if streak == 2 {
        40
    } else if streak == 3 {
        80
    } else if streak == 4 {
        160
    } else {
        300
    }
}

/// The back-off doubles from 20 seconds up to its five-minute cap.
pub proof fn lemma_cooldown_doubles_to_cap(streak: u32)
    requires
        1 <= streak < u32::MAX,
    ensures
        cooldown_secs(1) == 20,
        cooldown_secs(streak) <= 300,
        cooldown_secs((streak + 1) as u32) == if 2 * cooldown_secs(streak) < 300 {
            2 * cooldown_secs(streak)
        } else {
            300
        },
{
}

/// The failure back-off of Spotify playback.
pub struct Pacing {
    /// Failed plays in a row.
    pub fail_streak: u32,
    /// When playing may be tried again (Unix seconds; 0: now).
    pub cooldown_until: u64,
}

impl Pacing {
    /// Records a failure at Unix time `now` and arms the back-off.
    pub fn trip_cooldown(&mut self, now: u64)
        requires
            now <= u64::MAX - 300,
        ensures
            final(self).fail_streak == if old(self).fail_streak == u32::MAX {
                u32::MAX
            } else {
                (old(self).fail_streak + 1) as u32
            },
            final(self).cooldown_until == now + cooldown_secs(final(self).fail_streak),
    {
        self.fail_streak = self.fail_streak.saturating_add(1);
        let n = self.fail_streak;
        let secs: u64 = if n <= 1 {
            20
        } else if n == 2 {
            40
        } else if n == 3 {
            80
        } else if n == 4 {
            160
        } else {
            300
        };
        self.cooldown_until = now + secs;
    }

    /// Seconds left of the back-off at Unix time `now` (0: clear to play).
    pub fn cooldown_remaining(&self, now: u64) -> (r: u64)
        ensures
            r == if self.cooldown_until > now {
                (self.cooldown_until - now) as u64
            } else {
                0
            },
    {
        if self.cooldown_until > now {
            self.cooldown_until - now
        } else {
            0
        }
    }

    /// A track played, or a fresh login: the back-off is cleared.
    pub fn clear_cooldown(&mut self)
        ensures
            final(self).fail_streak == 0,
            final(self).cooldown_until == 0,
    {
        self.fail_streak = 0;
        self.cooldown_until = 0;
    }
}

/// Whether the evidence confirms an account-level audio-key block: no track
/// ever played despite `KEY_BLOCK_CONFIRM` refusals, on a Premium account
/// with the streaming scope, and librespot reported the refusal.
pub open spec fn key_block_spec(
    played_ok: bool,
    denials: u16,
    premium: bool,
    streaming: bool,
    refused: bool,
) -> bool {
    !played_ok && denials >= KEY_BLOCK_CONFIRM && premium && streaming && refused
}

/// Whether the evidence confirms an account-level audio-key block (see
/// `key_block_spec`); a momentary blip mid-playback never does.
pub fn key_block_confirmed(
    played_ok: bool,
    denials: u16,
    premium: bool,
    streaming: bool,
    refused: bool,
) -> (b: bool)
    ensures
        b == key_block_spec(played_ok, denials, premium, streaming, refused),
{
    if played_ok || denials < KEY_BLOCK_CONFIRM {
        return false;
    }
    premium && streaming && refused
}

/// The hint after a playback failure: switch accounts under a confirmed
/// block (nothing else can fix it), else re-authenticate.
pub fn failure_hint(block_confirmed: bool) -> (h: &'static str)
    ensures
        h@ == if block_confirmed {
            "Spotify is refusing this account's audio keys — a block it applies to some (usually newer) accounts that breaks every librespot-based player, so lyrfin can't work around it. Switch to an account that can stream."@
        } else {
            "re-authenticate if it persists (; → Re-authenticate)."@
        },
{
    if block_confirmed {
        "Spotify is refusing this account's audio keys — a block it applies to some (usually newer) accounts that breaks every librespot-based player, so lyrfin can't work around it. Switch to an account that can stream."
    } else {
        "re-authenticate if it persists (; → Re-authenticate)."
    }
}

/// Whether a position is at (within `END_SLACK_MS` of) the track's length;
/// an unknown length counts as the end.
pub open spec fn near_end(pos_ms: u64, dur_ms: u64) -> bool {
    dur_ms == 0 || pos_ms + END_SLACK_MS >= dur_ms
}

/// The stall count once progress well past the last stall has refilled
/// the budget.
pub open spec fn stall_n_after_progress(r: Retries) -> u8 {
    if r.sp_pos_ms > r.stall_pos_ms + STALL_PROGRESS_MS {
        0
    } else {
        r.stall_n
    }
}

/// What librespot's end of a playing track leads to.
pub enum Ended {
    /// A stall: the track re-buffers in place (with the notice, when the
    /// re-buffer was armed now rather than already pending).
    Rebuffer(Option<String>),
    /// A genuine end, or a stall past its budget: advance the queue.
    Advance,
}

impl Retries {
    /// Arms an in-place re-buffer after a mid-play stall at time `now`
    /// (milliseconds). One already pending absorbs the echo. Progress well
    /// past the last stall refills the budget; repeated stalls at one spot
    /// spend it, and with it spent (or no session) the caller advances.
    pub fn arm_stall_retry(&mut self, now: u64) -> (r: (bool, Option<String>))
        requires
            now <= u64::MAX - STALL_RETRY_DELAY_MS,
        ensures
            ({
                let refill = old(self).sp_pos_ms > old(self).stall_pos_ms + STALL_PROGRESS_MS;
                let n = if refill {
                    0
                } else {
                    old(self).stall_n
                };
                &&& old(self).stall_at is Some ==> r.0 && r.1 is None && *final(self) == *old(self)
                &&& old(self).stall_at is None && !old(self).session_live ==> !r.0 && r.1 is None
                    && *final(self) == *old(self)
                &&& old(self).stall_at is None && old(self).session_live && n >= STALL_RETRY_MAX
                    ==> !r.0 && r.1 is None && final(self).stall_n == n && final(self).stall_at
                    is None
                &&& old(self).stall_at is None && old(self).session_live && n < STALL_RETRY_MAX
                    ==> {
                    &&& r.0
                    &&& r.1 matches Some(t) && t@ == "Spotify stalled — rebuffering…"@
                    &&& final(self).stall_n == n + 1
                    &&& final(self).stall_pos_ms == old(self).sp_pos_ms
                    &&& final(self).stall_at == Some((now + STALL_RETRY_DELAY_MS) as u64)
                    &&& !final(self).sp_started
                }
            }),
    {
        if self.stall_at.is_some() {
            return (true, None);
        }
        if !self.session_live {
            return (false, None);
        }
        if self.stall_pos_ms <= u64::MAX - STALL_PROGRESS_MS && self.sp_pos_ms > self.stall_pos_ms
            + STALL_PROGRESS_MS {
            self.stall_n = 0;
        }
        if self.stall_n >= STALL_RETRY_MAX {
            return (false, None);
        }
        self.stall_n = self.stall_n + 1;
        self.stall_pos_ms = self.sp_pos_ms;
        self.stall_at = Some(now + STALL_RETRY_DELAY_MS);
        self.sp_started = false;
        (true, Some(string_from("Spotify stalled — rebuffering…")))
    }

    /// librespot ended a track that was playing, `dur_ms` long, at time
    /// `now`: a genuine end advances; a premature one re-buffers in place
    /// while the stall budget lasts.
    pub fn on_track_ended(&mut self, dur_ms: u64, now: u64) -> (e: Ended)
        requires
            now <= u64::MAX - STALL_RETRY_DELAY_MS,
        ensures
            near_end(old(self).sp_pos_ms, dur_ms) ==> e is Advance && *final(self) == *old(self),
            !near_end(old(self).sp_pos_ms, dur_ms) ==> {
                &&& e is Rebuffer <==> (old(self).stall_at is Some || (old(self).session_live
                    && stall_n_after_progress(*old(self)) < STALL_RETRY_MAX))
                &&& old(self).stall_at is None && e is Rebuffer ==> !final(self).sp_started
                    && final(self).stall_at == Some((now + STALL_RETRY_DELAY_MS) as u64)
            },
    {
        if dur_ms == 0 || self.sp_pos_ms >= dur_ms || dur_ms - self.sp_pos_ms <= END_SLACK_MS {
            return Ended::Advance;
        }
        let (owned, notice) = self.arm_stall_retry(now);
        if owned {
            Ended::Rebuffer(notice)
        } else {
            Ended::Advance
        }
    }
}

impl SessionState {
    /// Applies a Spotify Web API result (stale ones change nothing): the
    /// state changes as the matching transition says, and the result is
    /// what is left for the caller and the notice to show.
    pub fn on_spotify_result(&mut self, res: SpResult) -> (r: (SessionAction, Option<String>))
        ensures
            match res {
                SpResult::Library { key, items, show_uris } => r.1 is None && on_library_post(
                    *old(self),
                    *final(self),
                    key@,
                    items,
                    show_uris,
                    r.0,
                ),
                SpResult::Search { key, tracks, albums, artists, playlists, shows } => r.1 is None
                    && on_search_post(
                    *old(self),
                    *final(self),
                    key@,
                    tracks,
                    albums,
                    artists,
                    playlists,
                    shows,
                    r.0,
                ),
                SpResult::Opened { key, items, restored_sel } => r.0 is Nothing && r.1 is None
                    && on_opened_post(*old(self), *final(self), key@, items, restored_sel),
                SpResult::Saved { uri, saved } => r.0 is Nothing && r.1 is None && on_saved_post(
                    *old(self),
                    *final(self),
                    uri@,
                    saved,
                ),
                SpResult::Follow { uri, followed } => (r.0 is LoadSection || r.0 is Nothing) && (
                r.1 matches Some(t) && on_follow_post(
                    *old(self),
                    *final(self),
                    uri,
                    followed,
                    (t, r.0 is LoadSection),
                )),
                SpResult::ShowResolved { show_uri, name } => *final(self) == *old(self) && r.1 is None
                    && match show_uri {
                    Some(u) => r.0 matches SessionAction::OpenShow { uri: v, name: m } && v@ == u@
                        && m@ == name@,
                    None => r.0 matches SessionAction::Notify(t) && t@
                        == "Couldn't find this show on Spotify"@,
                },
                SpResult::Artist { uri, name, image, genres, followers } => r.1 is None
                    && on_artist_post(
                    *old(self),
                    *final(self),
                    uri@,
                    name,
                    image,
                    genres,
                    followers,
                    r.0,
                ),
                SpResult::ShowMeta { uri, publisher, description } => r.0 is Nothing && r.1 is None
                    && on_show_meta_post(*old(self), *final(self), uri, publisher, description),
                SpResult::Unauthorized { key } => r.1 is None && on_unauthorized_post(
                    *old(self),
                    *final(self),
                    key@,
                    r.0,
                ),
                SpResult::Error { key, msg } => r.1 is None && on_error_post(
                    *old(self),
                    *final(self),
                    key@,
                    msg,
                    r.0,
                ),
            },
    {
        match res {
            SpResult::Library { key, items, show_uris } => (
                self.on_library(key.as_str(), items, show_uris),
                None,
            ),
            SpResult::Search { key, tracks, albums, artists, playlists, shows } => (
                self.on_search(key.as_str(), tracks, albums, artists, playlists, shows),
                None,
            ),
            SpResult::Opened { key, items, restored_sel } => {
                self.on_opened(key.as_str(), items, restored_sel);
                (SessionAction::Nothing, None)
            },
            SpResult::Saved { uri, saved } => {
                self.on_saved(uri.as_str(), saved);
                (SessionAction::Nothing, None)
            },
            SpResult::Follow { uri, followed } => {
                let (text, reload) = self.on_follow(uri, followed);
                if reload {
                    (SessionAction::LoadSection, Some(text))
                } else {
                    (SessionAction::Nothing, Some(text))
                }
            },
            SpResult::ShowResolved { show_uri, name } => match show_uri {
                Some(u) => (SessionAction::OpenShow { uri: u, name }, None),
                None => (
                    SessionAction::Notify(string_from("Couldn't find this show on Spotify")),
                    None,
                ),
            },
            SpResult::Artist { uri, name, image, genres, followers } => (
                self.on_artist(uri.as_str(), name, image, genres, followers),
                None,
            ),
            SpResult::ShowMeta { uri, publisher, description } => {
                self.on_show_meta(uri, publisher, description);
                (SessionAction::Nothing, None)
            },
            SpResult::Unauthorized { key } => (self.on_unauthorized(key.as_str()), None),
            SpResult::Error { key, msg } => (self.on_error(key.as_str(), msg), None),
        }
    }
}

impl SessionState {
    /// Applies one librespot session event (see `session_event_post`).
    pub fn on_session_event(&mut self, ev: SessionEvent, link: &str) -> (a: SessionAction)
        ensures
            session_event_post(*old(self), *final(self), ev, link@, a),
    {
        match ev {
            SessionEvent::Connected => {
                self.on_connected();
                SessionAction::Nothing
            },
            SessionEvent::AudioAuthRejected(m) => self.on_auth_rejected(m.as_str()),
            SessionEvent::ArtistMeta { key, popularity, bio } => {
                self.on_artist_meta(key.as_str(), popularity, bio);
                SessionAction::Nothing
            },
            SessionEvent::Tracks { key, items } => {
                self.on_tracks(key.as_str(), items);
                SessionAction::Nothing
            },
            SessionEvent::PlaylistUris { key, uris, ok } => self.on_playlist_uris(
                key.as_str(),
                uris,
                ok,
            ),
            SessionEvent::ArtistPage { key, items } => {
                self.on_artist_page(key.as_str(), items);
                SessionAction::Nothing
            },
            SessionEvent::EpisodeResolved { uri, url } => self.on_episode_resolved(
                uri.as_str(),
                url,
            ),
            SessionEvent::ConnectError(m) => self.on_connect_error(m.as_str()),
            SessionEvent::Playing(pos) => self.on_playing(pos),
            SessionEvent::Paused(pos) => {
                self.on_paused(pos);
                SessionAction::Nothing
            },
            SessionEvent::EndOfTrack => self.on_end_of_track(),
            SessionEvent::Unavailable => {
                self.dirty = true;
                SessionAction::LoadFailed
            },
            SessionEvent::AudioKeyDenied => {
                self.dirty = true;
                SessionAction::PlaybackBlocked
            },
            SessionEvent::Browse { key, items, error } => self.on_browse(
                key.as_str(),
                items,
                error,
                link,
            ),
        }
    }

    /// Drains the session's pending events in order, returning what each
    /// leaves for the caller; any event asks for a redraw.
    pub fn pump_spotify_session(&mut self, events: Vec<SessionEvent>, link: &str) -> (acts: Vec<
        SessionAction,
    >)
        ensures
            acts.len() == events.len(),
            events.len() == 0 ==> *final(self) == *old(self),
            events.len() > 0 ==> final(self).dirty,
    {
        let n = events.len();
        let mut evs = events;
        let mut acts: Vec<SessionAction> = Vec::new();
        let mut k: usize = 0;
        while k < n
            invariant
                k <= n,
                evs.len() == n - k,
                acts.len() == k,
                k == 0 ==> *self == *old(self),
                k > 0 ==> self.dirty,
            decreases n - k,
        {
            let ev = evs.remove(0);
            let a = self.on_session_event(ev, link);
            proof {
                assert(self.dirty);
            }
            acts.push(a);
            k += 1;
        }
        acts
    }
}

} // verus!
