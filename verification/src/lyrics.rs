//! The shared lyrics slot. The local views and the Spotify view read one
//! slot, so every read and every arriving result is gated on the track the
//! slot was loaded for: a pane only shows lyrics loaded for its own source's
//! track, and a result for a track the player has moved past is dropped.

use vstd::prelude::*;
use crate::artistinfo::opt_view;
use crate::text::{str_eq, str_trim, trim_spec};
use crate::types::{Layout, LyricsPane};

verus! {

/// Parsed lyrics: the text of each line and, per line, its translation
/// (shown under it in the dual view).
pub struct Lyrics {
    pub lines: Vec<String>,
    pub trans: Vec<Option<String>>,
}

/// The lyrics slot.
pub struct LyricsSlot {
    /// The cache key of the track the slot was loaded for.
    pub lyrics_for: Option<String>,
    /// The loaded lyrics.
    pub lyrics: Option<Lyrics>,
    /// A fetch for `lyrics_for` is in flight.
    pub pending: bool,
    /// A machine translation of the lyrics is in flight.
    pub translate_pending: bool,
}

/// The player views (Now Playing, Lyrics, Concert), which have no source of
/// their own and follow whatever is playing.
pub open spec fn player_view(l: Layout) -> bool {
    l == Layout::FullPlayer || l == Layout::LyricsFocus || l == Layout::Concert
}

/// Whether lyrics follow the Spotify track rather than the local one: the
/// Spotify view does whenever it has a track; a player view does when
/// Spotify is what is playing; the other views never do.
pub open spec fn source_is_spotify(l: Layout, np_is_spotify: bool, has_spotify_track: bool) -> bool {
    if player_view(l) {
        np_is_spotify && has_spotify_track
    } else if l == Layout::Spotify {
        has_spotify_track
    } else {
        false
    }
}

/// Whether lyrics follow the Spotify track (see `source_is_spotify`);
/// `np_is_spotify` says Spotify owns the now-bar, `has_spotify_track` that a
/// Spotify track is loaded.
pub fn lyrics_source_is_spotify(layout: Layout, np_is_spotify: bool, has_spotify_track: bool) -> (b:
    bool)
    ensures
        b == source_is_spotify(layout, np_is_spotify, has_spotify_track),
{
    match layout {
        Layout::FullPlayer | Layout::LyricsFocus | Layout::Concert => np_is_spotify
            && has_spotify_track,
        Layout::Spotify => has_spotify_track,
        _ => false,
    }
}

/// The pane the slot is loaded for: Spotify's when lyrics follow Spotify.
pub fn active_lyrics_pane(layout: Layout, np_is_spotify: bool, has_spotify_track: bool) -> (p:
    LyricsPane)
    ensures
        p == if source_is_spotify(layout, np_is_spotify, has_spotify_track) {
            LyricsPane::Spotify
        } else {
            LyricsPane::Local
        },
{
    if lyrics_source_is_spotify(layout, np_is_spotify, has_spotify_track) {
        LyricsPane::Spotify
    } else {
        LyricsPane::Local
    }
}

/// Whether `o` holds exactly `key`.
fn holds(o: &Option<String>, key: &str) -> (b: bool)
    ensures
        b == (opt_view(*o) == Some(key@)),
{
    match o {
        Some(s) => str_eq(s.as_str(), key),
        None => false,
    }
}

impl LyricsSlot {
    /// An empty slot.
    pub fn new() -> (s: LyricsSlot)
        ensures
            s.lyrics_for is None,
            s.lyrics is None,
            !s.pending,
            !s.translate_pending,
    {
        LyricsSlot { lyrics_for: None, lyrics: None, pending: false, translate_pending: false }
    }

    /// The lyrics for a pane whose track has the cache key `key` (`None`:
    /// the pane's source has no track): the slot's lyrics only when they
    /// were loaded for that key.
    pub fn lyrics_for_pane(&self, key: Option<&str>) -> (r: Option<&Lyrics>)
        ensures
            r == match key {
                Some(k) => if opt_view(self.lyrics_for) == Some(k@) {
                    match self.lyrics {
                        Some(l) => Some(&l),
                        None => None,
                    }
                } else {
                    None
                },
                None => None,
            },
    {
        match key {
            Some(k) => {
                if holds(&self.lyrics_for, k) {
                    self.lyrics.as_ref()
                } else {
                    None
                }
            },
            None => None,
        }
    }

    /// Whether a fetch for the pane's own track (key `key`) is in flight.
    pub fn lyrics_pane_loading(&self, key: Option<&str>) -> (b: bool)
        ensures
            b == (self.pending && opt_view(self.lyrics_for) == match key {
                Some(k) => Some(k@),
                None => None,
            }),
    {
        if !self.pending {
            return false;
        }
        match key {
            Some(k) => holds(&self.lyrics_for, k),
            None => self.lyrics_for.is_none(),
        }
    }

    /// Whether switching to a source whose track has the key `key` must
    /// reload the slot: not when it already holds that track's lyrics.
    pub fn needs_reload(&self, key: Option<&str>) -> (b: bool)
        ensures
            b == !(key is Some && opt_view(self.lyrics_for) == Some(key->0@)),
    {
        match key {
            Some(k) => !holds(&self.lyrics_for, k),
            None => true,
        }
    }

    /// A fetched result for the track `key`, parsed from the text found
    /// (`None`: nothing found). A result for another track than the slot's
    /// is ignored (`false`). Otherwise the fetch is over, and lyrics with any
    /// lines replace the slot's.
    pub fn on_lyrics_result(&mut self, key: &str, lines: Option<Lyrics>) -> (applied: bool)
        ensures
            applied == (opt_view(old(self).lyrics_for) == Some(key@)),
            !applied ==> *final(self) == *old(self),
            applied ==> {
                &&& !final(self).pending
                &&& final(self).lyrics_for == old(self).lyrics_for
                &&& final(self).lyrics == match lines {
                    Some(l) => if l.lines.len() > 0 {
                        Some(l)
                    } else {
                        old(self).lyrics
                    },
                    None => old(self).lyrics,
                }
            },
    {
        if !holds(&self.lyrics_for, key) {
            return false;
        }
        self.pending = false;
        match lines {
            Some(l) => {
                if l.lines.len() > 0 {
                    self.lyrics = Some(l);
                }
            },
            None => {},
        }
        true
    }
}

/// The translation shown under a line: the translated text trimmed, unless
/// it is empty or the same as the line (trimmed), which would only repeat it.
pub open spec fn shown_translation(t: Seq<char>, orig: Seq<char>) -> Option<Seq<char>> {
    let tt = trim_spec(t);
    if tt.len() > 0 && tt != trim_spec(orig) {
        Some(tt)
    } else {
        None
    }
}

/// The view of an optional string.
pub open spec fn opt_seq(o: Option<String>) -> Option<Seq<char>> {
    match o {
        Some(s) => Some(s@),
        None => None,
    }
}

/// Line `i` of a translation `tr`, empty past its end.
pub open spec fn tr_line(tr: Seq<String>, i: int) -> Seq<char> {
    if 0 <= i < tr.len() {
        tr[i]@
    } else {
        Seq::empty()
    }
}

impl LyricsSlot {
    /// Whether a pane's source has a track to follow (its lyrics key).
    pub fn lyrics_pane_has_track(&self, key: Option<&str>) -> (b: bool)
        ensures
            b == key is Some,
    {
        key.is_some()
    }

    /// A machine translation into `target` arrived for the lyrics `key`
    /// (`None`: the lookup failed). It fills the lyrics' translations only
    /// when they are still those lyrics, `target` is still the wanted
    /// language `want`, and no human translation is there. The result says
    /// a translation arrived (for the caller to cache).
    pub fn on_translate_result(&mut self, key: &str, target: &str, want: &str, tr: Option<Vec<String>>) -> (arrived: bool)
        requires
            old(self).lyrics matches Some(l) ==> l.trans.len() == l.lines.len(),
        ensures
            arrived == tr is Some,
            !final(self).translate_pending,
            final(self).lyrics_for == old(self).lyrics_for,
            ({
                let fill = tr is Some && opt_view(old(self).lyrics_for) == Some(key@) && target@
                    == want@ && old(self).lyrics is Some && forall|i: int|
                    0 <= i < old(self).lyrics->0.trans.len() ==> #[trigger] old(
                        self,
                    ).lyrics->0.trans[i] is None;
                &&& !fill ==> final(self).lyrics == old(self).lyrics
                &&& fill ==> final(self).lyrics is Some && final(self).lyrics->0.lines
                    == old(self).lyrics->0.lines && final(self).lyrics->0.trans.len()
                    == old(self).lyrics->0.trans.len() && forall|i: int|
                    0 <= i < final(self).lyrics->0.trans.len() ==> opt_seq(
                        #[trigger] final(self).lyrics->0.trans[i],
                    ) == shown_translation(
                        tr_line(tr->0@, i),
                        old(self).lyrics->0.lines[i]@,
                    )
            }),
    {
        self.translate_pending = false;
        let lines = match tr {
            Some(l) => l,
            None => {
                return false;
            },
        };
        if !holds(&self.lyrics_for, key) || !str_eq(target, want) {
            return true;
        }
        let mut taken: Option<Lyrics> = None;
        std::mem::swap(&mut taken, &mut self.lyrics);
        let mut lyr = match taken {
            Some(l) => l,
            None => {
                return true;
            },
        };
        let n = lyr.trans.len();
        let mut human = false;
        let mut k: usize = 0;
        while k < n
            invariant
                k <= n,
                n == lyr.trans.len(),
                human == exists|j: int| 0 <= j < k && #[trigger] lyr.trans[j] is Some,
            decreases n - k,
        {
            if lyr.trans[k].is_some() {
                human = true;
            }
            k += 1;
        }
        if human {
            self.lyrics = Some(lyr);
            return true;
        }
        let ghost orig = lyr;
        let mut out: Vec<Option<String>> = Vec::new();
        let mut i: usize = 0;
        while i < n
            invariant
                i <= n,
                n == orig.trans.len(),
                n == orig.lines.len(),
                lyr.lines == orig.lines,
                out.len() == i,
                forall|j: int|
                    0 <= j < i ==> opt_seq(#[trigger] out[j]) == shown_translation(
                        tr_line(lines@, j),
                        orig.lines[j]@,
                    ),
            decreases n - i,
        {
            let t = if i < lines.len() {
                str_trim(lines[i].as_str())
            } else {
                String::new()
            };
            let o = str_trim(lyr.lines[i].as_str());
            proof {
                if i < lines.len() {
                    assert(tr_line(lines@, i as int) == lines@[i as int]@);
                } else {
                    assert(trim_spec(Seq::<char>::empty()) =~= Seq::<char>::empty());
                }
            }
            if t.as_str().unicode_len() > 0 && !str_eq(t.as_str(), o.as_str()) {
                out.push(Some(t));
            } else {
                out.push(None);
            }
            i += 1;
        }
        lyr.trans = out;
        self.lyrics = Some(lyr);
        true
    }
}

/// The position the lyrics follow (milliseconds): the Spotify clock when
/// lyrics follow Spotify, else the local player's, moved earlier by the
/// manual sync nudge `offset_ms` and never below zero.
pub fn playback_elapsed(spotify: bool, sp_pos_ms: u64, local_ms: u64, offset_ms: i32) -> (r: u64)
    requires
        sp_pos_ms <= i64::MAX,
        local_ms <= i64::MAX,
    ensures
        r == ({
            let base = if spotify {
                sp_pos_ms as int
            } else {
                local_ms as int
            };
            if base - offset_ms < 0 {
                0
            } else {
                base - offset_ms
            }
        }),
{
    let base: i128 = if spotify {
        sp_pos_ms as i128
    } else {
        local_ms as i128
    };
    let ms: i128 = base - offset_ms as i128;
    if ms < 0 {
        0
    } else {
        ms as u64
    }
}

} // verus!
