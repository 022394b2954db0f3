//! The application state the library decides over: the artist-info slot,
//! the Spotify login connection and the Spotify playback flags, with one
//! transition per event.
//!
//! Both artist panes (local and Spotify) read one shared slot, so every read
//! and every arriving result is gated on the artist the slot was requested
//! for: a bio fetched for one artist never shows for another, and a result
//! for an artist the user has moved past is dropped.

use vstd::prelude::*;
use crate::artistinfo::{opt_view, ArtistInfo, InfoRequest, InfoResult};
use crate::types::Layout;

verus! {

/// Fetched metadata shared by the panes.
pub struct Meta {
    /// The artist the info slot was last requested for.
    pub info_artist: Option<String>,
    /// The info fetched for `info_artist`, once it has arrived.
    pub artist_info: Option<ArtistInfo>,
    /// A fetch for `info_artist` is in flight.
    pub info_pending: bool,
}

/// How the Spotify login connection stands, as the view shows it.
pub enum ConnState {
    Disconnected,
    /// A login or resume is under way (with the browser URL of an
    /// interactive login, once known).
    Connecting { url: Option<String> },
    Connected { name: String, premium: bool },
    /// A transient failure to reach Spotify; a retry is scheduled.
    Reconnecting { msg: String },
    /// A real login failure, not retried.
    Error { msg: String },
}

/// The Spotify login connection and its retry schedule.
pub struct SpotifyConn {
    pub conn: ConnState,
    /// A login or resume is in flight.
    pub resuming: bool,
    /// A cached token exists to resume with.
    pub has_tokens: bool,
    /// When the next automatic reconnect is due (Unix seconds).
    pub reconnect_at: Option<u64>,
    /// Failed reconnects in the current outage.
    pub reconnect_attempts: u32,
    /// A browse list is loading.
    pub loading: bool,
    /// The account the session is signed in as, once known.
    pub account_id: Option<String>,
    /// The account a restored playback/browse state belongs to, until checked.
    pub restored_account: Option<String>,
}

/// Spotify playback flags of the now-playing overlay.
pub struct SpOverlay {
    /// The uri of the now-playing Spotify track or episode.
    pub now_spotify: Option<String>,
    pub spotify_paused: bool,
    /// The now-playing track has actually started playing.
    pub sp_started: bool,
    /// The now-playing episode is streamed through the engine.
    pub sp_stream: bool,
    /// A librespot session exists (it may have gone stale).
    pub session_live: bool,
    /// Failed tracks in a row.
    pub sp_fail_streak: u32,
    /// Unix-seconds deadline of a failure back-off (0: none).
    pub sp_cooldown_until: u64,
}

/// The application state: the artist panes' info slot, the Spotify login
/// connection and playback flags, the current view, and whether the screen
/// needs redrawing.
pub struct AppState {
    pub meta: Meta,
    pub spotify: SpotifyConn,
    pub spov: SpOverlay,
    pub layout: Layout,
    pub dirty: bool,
}

/// What reaching Spotify asks of the caller beyond the state change: whether
/// the restored playback and browse state belong to another account and must
/// be dropped, and the notice to show. The caller then loads the current view.
pub struct Connected {
    pub reset_account: bool,
    pub notice: String,
}

/// What a resolved podcast episode leads to.
pub enum PodcastAction {
    /// The result is for an episode no longer playing.
    Ignore,
    /// Stream the episode's public audio from this URL through the engine.
    Stream(String),
    /// No playable source: tell the user and hand the engine back.
    Unplayable,
}

/// The delay before reconnect attempt number `attempts` (counting from one):
/// 5, 10, 20 and 40 seconds, then 60 from the fifth on.
pub open spec fn backoff_secs(attempts: u32) -> u64 {
    if attempts <= 1 {
        5
    } else if attempts == 2 {
        10
    } else if attempts == 3 {
        20
    } else if attempts == 4 {
        40
    } else {
        60
    }
}

/// Whether a scheduled reconnect is due at time `now`.
pub open spec fn reconnect_due_spec(c: SpotifyConn, now: u64) -> bool {
    &&& !c.resuming
    &&& c.has_tokens
    &&& c.reconnect_at is Some
    &&& now >= c.reconnect_at->0
}

/// The back-off doubles from five seconds until it reaches its one-minute cap.
pub proof fn lemma_backoff_doubles_to_cap(attempts: u32)
    requires
        attempts >= 1,
        attempts < u32::MAX,
    ensures
        backoff_secs(1) == 5,
        backoff_secs(attempts) <= 60,
        backoff_secs((attempts + 1) as u32) == if 2 * backoff_secs(attempts) < 60 {
            2 * backoff_secs(attempts)
        } else {
            60
        },
{
}

/// Whether the slot belongs to the artist `active` shown by the pane.
pub open spec fn slot_is_for(m: Meta, active: Option<Seq<char>>) -> bool {
    active is Some && opt_view(m.info_artist) == active
}

/// The slot after a fetch result for `res.artist` arrives: applied only when
/// it is for the artist the slot was requested for.
pub open spec fn after_result(m: Meta, res: InfoResult) -> Meta {
    if opt_view(m.info_artist) == Some(res.artist@) {
        Meta { info_artist: m.info_artist, artist_info: res.info, info_pending: false }
    } else {
        m
    }
}

/// The view of an optional `&str`.
pub open spec fn opt_str(o: Option<&str>) -> Option<Seq<char>> {
    match o {
        Some(s) => Some(s@),
        None => None,
    }
}

/// An event of a Spotify login or resume.
pub enum AuthEvent {
    /// An interactive login waits for the user at this URL.
    Waiting { url: String },
    /// Spotify was reached (`account_id` empty when unknown).
    Connected { account_id: String, name: String, premium: bool },
    /// A real login failure.
    Error { msg: String },
    /// A transient failure to reach Spotify.
    ConnLost { msg: String },
}

/// What a login event leaves for the caller.
pub enum AuthOutcome {
    Nothing,
    /// Connected: drop another account's restored state if asked, show the
    /// notice, and load the current view.
    Connected(Connected),
    /// Record this error in the error log.
    LogError(String),
}

/// What `AppState::on_auth_waiting` does: `n` is `o` after it.
pub open spec fn on_auth_waiting_post(o: AppState, n: AppState, url: String) -> bool {
    &&& n.spotify.conn matches ConnState::Connecting { url: Some(u) } && u@ == url@
    &&& n.spotify.resuming == o.spotify.resuming
    &&& n.spotify.has_tokens == o.spotify.has_tokens
    &&& n.spotify.reconnect_at == o.spotify.reconnect_at
    &&& n.spotify.reconnect_attempts == o.spotify.reconnect_attempts
    &&& n.meta == o.meta
    &&& n.dirty
}

/// What `AppState::on_auth_connected` does: `n` is `o` after it.
pub open spec fn on_auth_connected_post(o: AppState, n: AppState, name: String, premium: bool, account_id: String, c: Connected) -> bool {
    &&& n.spotify.conn matches ConnState::Connected { name: n, premium: p } && n@
        == name@ && p == premium
    &&& n.spotify.has_tokens
    &&& !n.spotify.resuming
    &&& n.spotify.reconnect_at is None
    &&& n.spotify.reconnect_attempts == 0
    &&& n.spov.sp_fail_streak == 0
    &&& n.spov.sp_cooldown_until == 0
    &&& c.reset_account == (account_id@.len() > 0 && o.spotify.restored_account
        is Some && o.spotify.restored_account->0@ != account_id@)
    &&& account_id@.len() > 0 ==> n.spotify.restored_account is None && opt_view(
        n.spotify.account_id,
    ) == Some(account_id@)
    &&& account_id@.len() == 0 ==> opt_view(n.spotify.restored_account) == opt_view(
        o.spotify.restored_account,
    ) && opt_view(n.spotify.account_id) == opt_view(
        o.spotify.account_id,
    )
    &&& n.spov.session_live == (o.spov.session_live
        && o.spov.sp_started && !o.spov.spotify_paused)
    &&& c.notice@ == if premium {
        "Spotify connected as "@ + name@
    } else {
        "Connected — note: full playback needs Spotify Premium"@
    }
    &&& n.meta == o.meta
    &&& n.dirty
}

/// What `AppState::on_auth_error` does: `n` is `o` after it.
pub open spec fn on_auth_error_post(o: AppState, n: AppState, msg: String) -> bool {
    &&& n.spotify.conn matches ConnState::Error { msg: m } && m@ == msg@
    &&& !n.spotify.resuming
    &&& n.spotify.has_tokens == o.spotify.has_tokens
    &&& n.spotify.reconnect_at is None
    &&& n.spotify.reconnect_attempts == 0
    &&& n.meta == o.meta
    &&& n.dirty
}

/// What `AppState::on_conn_lost` does: `n` is `o` after it.
pub open spec fn on_conn_lost_post(o: AppState, n: AppState, msg: String, now: u64, first: bool) -> bool {
    &&& first == (o.spotify.reconnect_attempts == 0)
    &&& n.spotify.reconnect_attempts == if o.spotify.reconnect_attempts
        == u32::MAX {
        u32::MAX
    } else {
        (o.spotify.reconnect_attempts + 1) as u32
    }
    &&& n.spotify.reconnect_at == Some(
        (now + backoff_secs(n.spotify.reconnect_attempts)) as u64,
    )
    &&& !n.spotify.resuming
    &&& n.spotify.has_tokens == o.spotify.has_tokens
    &&& n.spotify.conn matches ConnState::Reconnecting { msg: m } && m@ == msg@
    &&& n.meta == o.meta
    &&& n.dirty
}

impl AppState {
    /// A fresh state: nothing requested or fetched, Spotify disconnected with
    /// no token and nothing scheduled or playing, on the home view.
    pub fn new() -> (s: AppState)
        ensures
            s.meta.info_artist is None,
            s.meta.artist_info is None,
            !s.meta.info_pending,
            s.spotify.conn is Disconnected,
            !s.spotify.resuming,
            !s.spotify.has_tokens,
            s.spotify.reconnect_at is None,
            s.spotify.reconnect_attempts == 0,
            !s.spotify.loading,
            s.spotify.account_id is None,
            s.spotify.restored_account is None,
            s.spov.now_spotify is None,
            !s.spov.spotify_paused,
            !s.spov.sp_started,
            !s.spov.sp_stream,
            !s.spov.session_live,
            s.spov.sp_fail_streak == 0,
            s.spov.sp_cooldown_until == 0,
            s.layout == Layout::Dashboard,
            !s.dirty,
    {
        AppState {
            meta: Meta { info_artist: None, artist_info: None, info_pending: false },
            spotify: SpotifyConn {
                conn: ConnState::Disconnected,
                resuming: false,
                has_tokens: false,
                reconnect_at: None,
                reconnect_attempts: 0,
                loading: false,
                account_id: None,
                restored_account: None,
            },
            spov: SpOverlay {
                now_spotify: None,
                spotify_paused: false,
                sp_started: false,
                sp_stream: false,
                session_live: false,
                sp_fail_streak: 0,
                sp_cooldown_until: 0,
            },
            layout: Layout::Dashboard,
            dirty: false,
        }
    }

    /// An interactive login is waiting for the user at `url`.
    pub fn on_auth_waiting(&mut self, url: String)
        ensures
            on_auth_waiting_post(*old(self), *final(self), url),
    {
        self.spotify.conn = ConnState::Connecting { url: Some(url) };
        self.dirty = true;
    }

    /// Spotify was reached as `name` (on account `account_id`, empty when
    /// unknown): the token is kept, the login is over, any scheduled retry and
    /// failure back-off are dropped, the account is recorded (a restored state
    /// of another account is to be dropped), and a session that is not
    /// actively streaming is dropped, since it predates the fresh token and is
    /// likely dead.
    pub fn on_auth_connected(&mut self, name: String, premium: bool, account_id: String) -> (c:
        Connected)
        ensures
            on_auth_connected_post(*old(self), *final(self), name, premium, account_id, c),
    {
        self.spotify.has_tokens = true;
        self.spotify.resuming = false;
        self.spotify.reconnect_at = None;
        self.spotify.reconnect_attempts = 0;
        self.spov.sp_fail_streak = 0;
        self.spov.sp_cooldown_until = 0;
        let mut reset_account = false;
        if account_id.as_str().unicode_len() > 0 {
            let mut prev: Option<String> = None;
            std::mem::swap(&mut prev, &mut self.spotify.restored_account);
            if let Some(p) = prev {
                reset_account = !crate::text::str_eq(p.as_str(), account_id.as_str());
            }
            self.spotify.account_id = Some(account_id);
        }
        let streaming = self.spov.sp_started && !self.spov.spotify_paused;
        if !streaming {
            self.spov.session_live = false;
        }
        let notice = if premium {
            let mut n = crate::text::string_from("Spotify connected as ");
            crate::text::push_str(&mut n, name.as_str());
            n
        } else {
            crate::text::string_from("Connected — note: full playback needs Spotify Premium")
        };
        self.spotify.conn = ConnState::Connected { name, premium };
        self.dirty = true;
        Connected { reset_account, notice }
    }

    /// A real login failure: it is shown and not retried.
    pub fn on_auth_error(&mut self, msg: String)
        ensures
            on_auth_error_post(*old(self), *final(self), msg),
    {
        self.spotify.resuming = false;
        self.spotify.reconnect_at = None;
        self.spotify.reconnect_attempts = 0;
        self.spotify.conn = ConnState::Error { msg };
        self.dirty = true;
    }

    /// A transient failure to reach Spotify at time `now`: the token is kept
    /// and a retry is scheduled with back-off. Returns whether this is the
    /// first failure of the outage (whose reason is worth recording).
    pub fn on_conn_lost(&mut self, msg: String, now: u64) -> (first: bool)
        requires
            now <= u64::MAX - 60,
        ensures
            on_conn_lost_post(*old(self), *final(self), msg, now, first),
    {
        self.dirty = true;
        self.spotify.resuming = false;
        let first = self.spotify.reconnect_attempts == 0;
        if self.spotify.reconnect_attempts < u32::MAX {
            self.spotify.reconnect_attempts = self.spotify.reconnect_attempts + 1;
        }
        let a = self.spotify.reconnect_attempts;
        let backoff: u64 = if a <= 1 {
            5
        } else if a == 2 {
            10
        } else if a == 3 {
            20
        } else if a == 4 {
            40
        } else {
            60
        };
        self.spotify.reconnect_at = Some(now + backoff);
        self.spotify.conn = ConnState::Reconnecting { msg };
        first
    }

    /// Whether a scheduled reconnect is due at time `now`: one is scheduled,
    /// its time has come, nothing else is in flight, and a token exists to
    /// resume with.
    pub fn spotify_reconnect_due(&self, now: u64) -> (due: bool)
        ensures
            due == reconnect_due_spec(self.spotify, now),
    {
        !self.spotify.resuming && self.spotify.has_tokens && match self.spotify.reconnect_at {
            Some(at) => now >= at,
            None => false,
        }
    }

    /// Starts the scheduled reconnect once it is due at time `now`; returns
    /// whether a resume was started (the schedule is consumed, and re-armed if
    /// this attempt fails too).
    pub fn tick_reconnect(&mut self, now: u64) -> (started: bool)
        ensures
            started == reconnect_due_spec(old(self).spotify, now),
            started ==> final(self).spotify.reconnect_at is None && final(self).spotify.resuming
                && final(self).dirty,
            !started ==> final(self).dirty == old(self).dirty,
            !started ==> final(self).spotify.reconnect_at == old(self).spotify.reconnect_at
                && final(self).spotify.resuming == old(self).spotify.resuming,
            final(self).spotify.has_tokens == old(self).spotify.has_tokens,
            final(self).spotify.reconnect_attempts == old(self).spotify.reconnect_attempts,
            final(self).meta == old(self).meta,
    {
        if !self.spotify_reconnect_due(now) {
            return false;
        }
        self.spotify.reconnect_at = None;
        self.spotify.resuming = true;
        self.dirty = true;
        true
    }

    /// Whether a login or resume is in flight or a list is loading (keeps the
    /// loop ticking so the spinner animates).
    pub fn spotify_busy(&self) -> (b: bool)
        ensures
            b == (self.spotify.resuming || self.spotify.loading),
    {
        self.spotify.resuming || self.spotify.loading
    }

    /// Whether the now-bar shows the Spotify track (Spotify view only).
    pub fn showing_spotify(&self) -> (b: bool)
        ensures
            b == (self.layout == Layout::Spotify && self.spov.now_spotify is Some),
    {
        self.layout == Layout::Spotify && self.spov.now_spotify.is_some()
    }

    /// A Spotify track is loaded and meant to play but has not started yet.
    pub fn sp_buffering(&self) -> (b: bool)
        ensures
            b == (self.spov.now_spotify is Some && !self.spov.spotify_paused
                && !self.spov.sp_started),
    {
        self.spov.now_spotify.is_some() && !self.spov.spotify_paused && !self.spov.sp_started
    }

    /// A resolved episode arrived for the episode `key`: stream its public
    /// audio from `url`, or report it unplayable when none was found. A result
    /// for an episode no longer playing is ignored.
    pub fn on_podcast_result(&mut self, key: &str, url: Option<String>) -> (act: PodcastAction)
        ensures
            opt_view(old(self).spov.now_spotify) != Some(key@) ==> act is Ignore
                && final(self).spov == old(self).spov && final(self).dirty == old(self).dirty,
            opt_view(old(self).spov.now_spotify) == Some(key@) ==> {
                &&& final(self).dirty
                &&& match url {
                    Some(u) => {
                        &&& act matches PodcastAction::Stream(v) && v@ == u@
                        &&& final(self).spov.sp_stream
                        &&& !final(self).spov.spotify_paused
                        &&& final(self).spov.sp_started == old(self).spov.sp_started
                    },
                    None => {
                        &&& act is Unplayable
                        &&& final(self).spov.spotify_paused
                        &&& !final(self).spov.sp_started
                        &&& final(self).spov.sp_stream == old(self).spov.sp_stream
                    },
                }
            },
            opt_view(final(self).spov.now_spotify) == opt_view(old(self).spov.now_spotify),
            final(self).spov.session_live == old(self).spov.session_live,
            final(self).meta == old(self).meta,
    {
        let current = match &self.spov.now_spotify {
            Some(u) => crate::text::str_eq(u.as_str(), key),
            None => false,
        };
        if !current {
            return PodcastAction::Ignore;
        }
        self.dirty = true;
        match url {
            Some(u) => {
                self.spov.sp_stream = true;
                self.spov.spotify_paused = false;
                PodcastAction::Stream(u)
            },
            None => {
                self.spov.spotify_paused = true;
                self.spov.sp_started = false;
                PodcastAction::Unplayable
            },
        }
    }

    /// Starts a fetch for `artist` unless the artist pane is hidden
    /// (`pane_shown` false: no network when nothing is shown) or the slot is
    /// already for that artist; returns the request to send to the info worker
    /// when one starts.
    pub fn begin_artist_info(&mut self, artist: String, album: String, pane_shown: bool) -> (req:
        Option<InfoRequest>)
        ensures
            final(self).spotify == old(self).spotify,
            !pane_shown || opt_view(old(self).meta.info_artist) == Some(artist@) ==> req is None
                && final(self).meta == old(self).meta,
            pane_shown && opt_view(old(self).meta.info_artist) != Some(artist@) ==> {
                &&& opt_view(final(self).meta.info_artist) == Some(artist@)
                &&& final(self).meta.artist_info is None
                &&& final(self).meta.info_pending
                &&& req matches Some(r) && r.artist@ == artist@ && r.album@ == album@
            },
    {
        if !pane_shown {
            return None;
        }
        let same = match &self.meta.info_artist {
            Some(a) => *a == artist,
            None => false,
        };
        if same {
            return None;
        }
        self.meta.info_artist = Some(artist.clone());
        self.meta.artist_info = None;
        self.meta.info_pending = true;
        Some(InfoRequest { artist, album })
    }

    /// The fetched artist info, but only when it belongs to the artist the
    /// active pane is currently showing (`active`).
    pub fn current_artist_info(&self, active: Option<&str>) -> (r: Option<&ArtistInfo>)
        ensures
            r is Some <==> slot_is_for(self.meta, opt_str(active)) && self.meta.artist_info is Some,
            r is Some ==> *r->0 == self.meta.artist_info->0,
    {
        let a = match active {
            Some(a) => a,
            None => return None,
        };
        let ours = match &self.meta.info_artist {
            Some(x) => crate::text::str_eq(x.as_str(), a),
            None => false,
        };
        if ours {
            self.meta.artist_info.as_ref()
        } else {
            None
        }
    }

    /// Whether a fetch for the artist the active pane shows is in flight.
    pub fn artist_info_loading(&self, active: Option<&str>) -> (b: bool)
        ensures
            b == (self.meta.info_pending && opt_view(self.meta.info_artist) == opt_str(active)),
    {
        if !self.meta.info_pending {
            return false;
        }
        match (&self.meta.info_artist, active) {
            (Some(x), Some(a)) => crate::text::str_eq(x.as_str(), a),
            (None, None) => true,
            _ => false,
        }
    }

    /// Applies a fetched artist-info result, ignoring it when the slot has
    /// moved on to another artist.
    pub fn on_info_result(&mut self, res: InfoResult)
        ensures
            final(self).meta == after_result(old(self).meta, res),
            final(self).spotify == old(self).spotify,
    {
        let ours = match &self.meta.info_artist {
            Some(a) => *a == res.artist,
            None => false,
        };
        if ours {
            self.meta.artist_info = res.info;
            self.meta.info_pending = false;
        }
    }
}

/// A result for another artist than the one requested changes nothing.
pub proof fn lemma_stale_result_ignored(m: Meta, res: InfoResult)
    requires
        opt_view(m.info_artist) != Some(res.artist@),
    ensures
        after_result(m, res) == m,
{
}

/// Once a result lands, its info is shown only for the artist it was fetched
/// for, never in a pane showing anyone else.
pub proof fn lemma_info_shown_only_for_its_artist(
    m: Meta,
    res: InfoResult,
    active: Option<Seq<char>>,
)
    requires
        opt_view(m.info_artist) == Some(res.artist@),
        slot_is_for(after_result(m, res), active),
    ensures
        active == Some(res.artist@),
        after_result(m, res).artist_info == res.info,
        !after_result(m, res).info_pending,
{
}

impl AppState {
    /// Applies one login event at Unix time `now`, as the matching
    /// transition says: a real failure is logged, and the reason of an
    /// outage is logged once, at its first loss.
    pub fn on_auth_event(&mut self, ev: AuthEvent, now: u64) -> (out: AuthOutcome)
        requires
            now <= u64::MAX - 60,
        ensures
            match ev {
                AuthEvent::Waiting { url } => on_auth_waiting_post(*old(self), *final(self), url)
                    && out is Nothing,
                AuthEvent::Connected { account_id, name, premium } => out matches AuthOutcome::Connected(c)
                    && on_auth_connected_post(*old(self), *final(self), name, premium, account_id, c),
                AuthEvent::Error { msg } => on_auth_error_post(*old(self), *final(self), msg) && (
                out matches AuthOutcome::LogError(m) && m@ == msg@),
                AuthEvent::ConnLost { msg } => {
                    &&& on_conn_lost_post(*old(self), *final(self), msg, now, out is LogError)
                    &&& out is LogError ==> (out matches AuthOutcome::LogError(m) && m@ == msg@)
                    &&& out is LogError || out is Nothing
                },
            },
    {
        match ev {
            AuthEvent::Waiting { url } => {
                self.on_auth_waiting(url);
                AuthOutcome::Nothing
            },
            AuthEvent::Connected { account_id, name, premium } => AuthOutcome::Connected(
                self.on_auth_connected(name, premium, account_id),
            ),
            AuthEvent::Error { msg } => {
                let logged = crate::text::string_from(msg.as_str());
                self.on_auth_error(msg);
                AuthOutcome::LogError(logged)
            },
            AuthEvent::ConnLost { msg } => {
                let logged = crate::text::string_from(msg.as_str());
                if self.on_conn_lost(msg, now) {
                    AuthOutcome::LogError(logged)
                } else {
                    AuthOutcome::Nothing
                }
            },
        }
    }

    /// Drains the login events in order at Unix time `now`, returning what
    /// each leaves for the caller; any event asks for a redraw.
    pub fn pump_spotify(&mut self, events: Vec<AuthEvent>, now: u64) -> (outs: Vec<AuthOutcome>)
        requires
            now <= u64::MAX - 60,
        ensures
            outs.len() == events.len(),
            events.len() == 0 ==> *final(self) == *old(self),
            events.len() > 0 ==> final(self).dirty,
    {
        let n = events.len();
        let mut evs = events;
        let mut outs: Vec<AuthOutcome> = Vec::new();
        let mut k: usize = 0;
        while k < n
            invariant
                k <= n,
                evs.len() == n - k,
                outs.len() == k,
                now <= u64::MAX - 60,
                k == 0 ==> *self == *old(self),
                k > 0 ==> self.dirty,
            decreases n - k,
        {
            let ev = evs.remove(0);
            let o = self.on_auth_event(ev, now);
            outs.push(o);
            k += 1;
        }
        outs
    }
}

} // verus!
