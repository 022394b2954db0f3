//! Pure decisions of the Spotify view: the safety plan for removing tracks from
//! a playlist, the wording of browse failures, and the small state types the
//! view keeps.

use vstd::prelude::*;
use crate::text::{has_infix, has_prefix, push_str, str_contains, str_starts_with, string_from};

verus! {

/// Largest playlist that is rebuilt for a track removal: Spotify's replace
/// endpoint caps at 100 uris, so a bigger playlist is refused rather than risk
/// dropping the tracks beyond the cap.
pub const SP_MAX_REBUILD: usize = 100;

/// What a remove-a-track should do, decided from the playlist's fresh uri list.
#[derive(Debug, PartialEq)]
pub enum RemovePlan {
    /// The playlist is larger than the limit: refuse and change nothing.
    TooLarge,
    /// None of the targets are in the list: do nothing.
    NotFound,
    /// Replace the playlist's contents with exactly this list.
    Replace(Vec<String>),
}

/// The character views of a sequence of strings.
pub open spec fn views(s: Seq<String>) -> Seq<Seq<char>> {
    s.map_values(|u: String| u@)
}

/// `s` with every element that occurs in `targets` removed, order kept.
pub open spec fn without(s: Seq<Seq<char>>, targets: Seq<Seq<char>>) -> Seq<Seq<char>>
    decreases s.len(),
{
    if s.len() == 0 {
        Seq::empty()
    } else {
        let rest = without(s.drop_last(), targets);
        if targets.contains(s.last()) {
            rest
        } else {
            rest.push(s.last())
        }
    }
}

/// The plan for removing `targets` from a playlist whose uris are `uris`.
pub open spec fn remove_plan_spec(uris: Seq<Seq<char>>, targets: Seq<Seq<char>>, max: nat) -> Option<
    Option<Seq<Seq<char>>>,
> {
    if uris.len() > max {
        None
    } else if without(uris, targets).len() == uris.len() {
        Some(None)
    } else {
        Some(Some(without(uris, targets)))
    }
}

/// The plan as the spec's three-way answer: `None` for too large, `Some(None)`
/// for nothing to remove, `Some(Some(list))` for a replacement.
pub open spec fn plan_view(p: RemovePlan) -> Option<Option<Seq<Seq<char>>>> {
    match p {
        RemovePlan::TooLarge => None,
        RemovePlan::NotFound => Some(None),
        RemovePlan::Replace(v) => Some(Some(views(v@))),
    }
}

/// Removing only ever shrinks, and the result holds no target.
pub proof fn lemma_without_shrinks(s: Seq<Seq<char>>, targets: Seq<Seq<char>>)
    ensures
        without(s, targets).len() <= s.len(),
        forall|x: Seq<char>| #[trigger] without(s, targets).contains(x) ==> !targets.contains(x)
            && s.contains(x),
    decreases s.len(),
{
    if s.len() > 0 {
        lemma_without_shrinks(s.drop_last(), targets);
        let rest = without(s.drop_last(), targets);
        assert forall|x: Seq<char>| without(s, targets).contains(x) implies !targets.contains(x)
            && s.contains(x) by {
            let w = without(s, targets);
            if !targets.contains(s.last()) && x == s.last() {
                assert(s[s.len() - 1] == x);
            } else {
                let k = choose|k: int| 0 <= k < w.len() && w[k] == x;
                assert(rest[k] == x);
                assert(rest.contains(x));
                assert(s.drop_last().contains(x));
                let j = choose|j: int| 0 <= j < s.drop_last().len() && s.drop_last()[j] == x;
                assert(s[j] == x);
            }
        }
    }
}

/// Nothing is removed exactly when no element is a target.
pub proof fn lemma_without_full_iff_untouched(s: Seq<Seq<char>>, targets: Seq<Seq<char>>)
    ensures
        without(s, targets).len() == s.len() <==> (forall|i: int|
            0 <= i < s.len() ==> !targets.contains(#[trigger] s[i])),
        without(s, targets).len() == s.len() ==> without(s, targets) == s,
    decreases s.len(),
{
    if s.len() > 0 {
        lemma_without_full_iff_untouched(s.drop_last(), targets);
        lemma_without_shrinks(s.drop_last(), targets);
        if without(s, targets).len() == s.len() {
            assert forall|i: int| 0 <= i < s.len() implies !targets.contains(#[trigger] s[i]) by {
                if i < s.len() - 1 {
                    assert(s.drop_last()[i] == s[i]);
                }
            }
            assert(without(s, targets) =~= s);
        } else {
            if forall|i: int| 0 <= i < s.len() ==> !targets.contains(#[trigger] s[i]) {
                assert forall|i: int| 0 <= i < s.drop_last().len() implies !targets.contains(
                    #[trigger] s.drop_last()[i],
                ) by {
                    assert(s.drop_last()[i] == s[i]);
                }
                assert(!targets.contains(s[s.len() - 1]));
            }
        }
    }
}

/// A replacement is always strictly shorter than the playlist, never longer,
/// and keeps no target.
pub proof fn lemma_replace_only_shrinks(
    uris: Seq<Seq<char>>,
    targets: Seq<Seq<char>>,
    max: nat,
    kept: Seq<Seq<char>>,
)
    requires
        remove_plan_spec(uris, targets, max) == Some(Some(kept)),
    ensures
        kept.len() < uris.len(),
        forall|x: Seq<char>| kept.contains(x) ==> !targets.contains(x),
{
    lemma_without_shrinks(uris, targets);
}

/// Whether some element of `targets` equals `u`.
fn listed(targets: &Vec<String>, u: &String) -> (r: bool)
    ensures
        r == views(targets@).contains(u@),
{
    let mut i: usize = 0;
    while i < targets.len()
        invariant
            i <= targets@.len(),
            forall|k: int| 0 <= k < i ==> targets@[k]@ != u@,
        decreases targets@.len() - i,
    {
        if targets[i] == *u {
            assert(views(targets@)[i as int] == u@);
            return true;
        }
        i += 1;
    }
    assert forall|k: int| 0 <= k < views(targets@).len() implies views(targets@)[k] != u@ by {
        assert(views(targets@)[k] == targets@[k]@);
    }
    false
}

/// Decides the remove action from the fresh uris of a playlist: more than `max`
/// uris is refused (a truncated list is never rebuilt), no target present is a
/// no-op, and otherwise the replacement is the list with every occurrence of
/// every target removed, order kept.
pub fn plan_remove(uris: Vec<String>, targets: &Vec<String>, max: usize) -> (p: RemovePlan)
    ensures
        plan_view(p) == remove_plan_spec(views(uris@), views(targets@), max as nat),
{
    if uris.len() > max {
        return RemovePlan::TooLarge;
    }
    let before = uris.len();
    let mut remaining: Vec<String> = Vec::new();
    let mut i: usize = 0;
    while i < uris.len()
        invariant
            i <= uris@.len(),
            views(remaining@) == without(views(uris@).take(i as int), views(targets@)),
        decreases uris@.len() - i,
    {
        let u = &uris[i];
        let hit = listed(targets, u);
        proof {
            let s = views(uris@).take(i as int + 1);
            assert(s.drop_last() =~= views(uris@).take(i as int));
            assert(s.last() == u@);
        }
        if !hit {
            remaining.push(u.clone());
            assert(views(remaining@) =~= without(views(uris@).take(i as int), views(targets@)).push(u@));
        }
        i += 1;
    }
    assert(views(uris@).take(uris@.len() as int) =~= views(uris@));
    if remaining.len() == before {
        RemovePlan::NotFound
    } else {
        RemovePlan::Replace(remaining)
    }
}

/// Which text prompt the playlist modal is showing.
pub enum SpNaming {
    /// Create a new playlist.
    New,
    /// Rename the playlist `uri` to the typed name.
    Rename { uri: String },
}

/// Dropped-connection recovery state of Spotify playback.
#[derive(Clone, Copy, PartialEq, Eq, Debug, Structural)]
pub enum SpRecovery {
    /// Playing normally: a load failure means reconnect and retry once.
    Normal,
    /// Re-issued the track on a fresh session that is still connecting.
    Reconnecting,
    /// The fresh session connected: a failure now is real.
    Reconnected,
}

impl Default for SpRecovery {
    fn default() -> (r: SpRecovery)
        ensures
            r == SpRecovery::Normal,
    {
        SpRecovery::Normal
    }
}

/// Details of the now-playing track's artist.
#[derive(Clone)]
pub struct SpArtist {
    pub name: String,
    pub genres: String,
    pub followers: u64,
    pub popularity: u32,
    pub bio: String,
}

impl Default for SpArtist {
    fn default() -> (r: SpArtist)
        ensures
            r.name@ == Seq::<char>::empty(),
            r.genres@ == Seq::<char>::empty(),
            r.followers == 0,
            r.popularity == 0,
            r.bio@ == Seq::<char>::empty(),
    {
        SpArtist {
            name: String::new(),
            genres: String::new(),
            followers: 0,
            popularity: 0,
            bio: String::new(),
        }
    }
}

/// Metadata of the now-playing episode's show, keyed by its uri.
#[derive(Clone)]
pub struct ShowMeta {
    pub uri: String,
    pub publisher: String,
    pub description: String,
}

impl Default for ShowMeta {
    fn default() -> (r: ShowMeta)
        ensures
            r.uri@ == Seq::<char>::empty(),
            r.publisher@ == Seq::<char>::empty(),
            r.description@ == Seq::<char>::empty(),
    {
        ShowMeta { uri: String::new(), publisher: String::new(), description: String::new() }
    }
}

/// Whether `uri` names a podcast episode.
pub fn is_episode_uri(uri: &str) -> (r: bool)
    ensures
        r == has_infix(uri@, ":episode:"@),
{
    str_contains(uri, ":episode:")
}

/// Whether a browse failure is Spotify refusing the session's credentials.
pub open spec fn auth_error_spec(err: Seq<char>) -> bool {
    has_infix(err, "INVALID_CREDENTIALS"@) || has_prefix(err, "auth token"@) || has_infix(
        err,
        "401"@,
    )
}

/// Whether a browse failure is Spotify refusing the session's credentials
/// rather than a problem with the feed itself.
pub fn is_audio_auth_error(err: &str) -> (r: bool)
    ensures
        r == auth_error_spec(err@),
{
    str_contains(err, "INVALID_CREDENTIALS") || str_starts_with(err, "auth token")
        || str_contains(err, "401")
}

/// The note shown for a browse failure `err`, stating its actual cause.
pub open spec fn browse_note_spec(err: Seq<char>) -> Seq<char> {
    if auth_error_spec(err) {
        "Browse needs re-authorizing — Spotify refused these credentials"@
    } else if has_infix(err, "429"@) {
        "Spotify is rate-limiting browse right now — try again shortly"@
    } else if has_infix(err, "PersistedQuery"@) || has_prefix(err, "graphql"@) {
        "Browse is unavailable — Spotify changed its browse API (update lyrfin)"@
    } else {
        "Browse unavailable ("@ + err + ")"@
    }
}

/// A browse failure stated as its actual cause.
pub fn browse_error_note(err: &str) -> (note: String)
    ensures
        note@ == browse_note_spec(err@),
{
    if is_audio_auth_error(err) {
        string_from("Browse needs re-authorizing — Spotify refused these credentials")
    } else if str_contains(err, "429") {
        string_from("Spotify is rate-limiting browse right now — try again shortly")
    } else if str_contains(err, "PersistedQuery") || str_starts_with(err, "graphql") {
        string_from("Browse is unavailable — Spotify changed its browse API (update lyrfin)")
    } else {
        let mut note = string_from("Browse unavailable (");
        push_str(&mut note, err);
        push_str(&mut note, ")");
        note
    }
}


/// What is known when a Spotify track fails to load.
pub struct LoadFailure {
    /// A Spotify track is the now-playing one.
    pub now_playing: bool,
    /// A quick audio-key retry is already scheduled.
    pub key_retry_pending: bool,
    /// A mid-play stall re-buffer is already scheduled.
    pub stall_pending: bool,
    /// Several tracks were key-denied with none ever playing: an account-level
    /// block that a reconnect cannot get around.
    pub key_block_confirmed: bool,
    /// The track is a podcast episode streamed through the engine.
    pub streaming_episode: bool,
    /// The playback queue is empty.
    pub queue_empty: bool,
    /// A failure back-off is running.
    pub cooldown_active: bool,
}

/// What a track failure leads to.
#[derive(Clone, Copy, PartialEq, Eq, Debug, Structural)]
pub enum FailStep {
    /// Nothing: no track, another retry owns the recovery, or the failure is an
    /// echo from the session a reconnect is replacing.
    Ignore,
    /// Drop the session, reconnect and replay this track.
    Reconnect,
    /// Stop and back off: the failures keep coming.
    BackOff,
    /// Skip to the next track.
    Advance,
}

/// The decision on a track failure, with the recovery state and failure
/// streak it leaves: echoes and failures another retry owns are ignored; the
/// first failure of a track in normal playback reconnects and replays it; a
/// failure after that skips once, and a second one in a row backs off.
pub open spec fn load_failed_spec(f: LoadFailure, recovery: SpRecovery, streak: u32) -> (
    FailStep,
    SpRecovery,
    u32,
) {
    if !f.now_playing || f.key_retry_pending || f.stall_pending || recovery
        == SpRecovery::Reconnecting {
        (FailStep::Ignore, recovery, streak)
    } else if !f.key_block_confirmed && recovery == SpRecovery::Normal && !f.streaming_episode
        && !f.queue_empty && !f.cooldown_active {
        (FailStep::Reconnect, SpRecovery::Reconnecting, streak)
    } else if streak >= 1 {
        (FailStep::BackOff, recovery, streak)
    } else {
        (FailStep::Advance, recovery, (streak + 1) as u32)
    }
}

/// Decides what a track failure leads to: first assume a dropped connection
/// and reconnect and replay the track once; only if that also fails skip to
/// the next, and if failures keep coming stop and back off.
pub fn load_failed_step(f: &LoadFailure, recovery: SpRecovery, streak: u32) -> (r: (
    FailStep,
    SpRecovery,
    u32,
))
    ensures
        r == load_failed_spec(*f, recovery, streak),
{
    let reconnecting = match recovery {
        SpRecovery::Reconnecting => true,
        _ => false,
    };
    if !f.now_playing || f.key_retry_pending || f.stall_pending || reconnecting {
        return (FailStep::Ignore, recovery, streak);
    }
    let normal = match recovery {
        SpRecovery::Normal => true,
        _ => false,
    };
    if !f.key_block_confirmed && normal && !f.streaming_episode && !f.queue_empty
        && !f.cooldown_active {
        (FailStep::Reconnect, SpRecovery::Reconnecting, streak)
    } else if streak >= 1 {
        (FailStep::BackOff, recovery, streak)
    } else {
        (FailStep::Advance, recovery, streak + 1)
    }
}

/// The recovery state once the session reports it connected: a fresh session
/// spawned by a reconnect is now up, so a failure from here on is real.
pub open spec fn session_connected_spec(recovery: SpRecovery) -> SpRecovery {
    if recovery == SpRecovery::Reconnecting {
        SpRecovery::Reconnected
    } else {
        recovery
    }
}

/// The recovery state once the session reports it connected.
pub fn on_session_connected(recovery: SpRecovery) -> (r: SpRecovery)
    ensures
        r == session_connected_spec(recovery),
{
    match recovery {
        SpRecovery::Reconnecting => SpRecovery::Reconnected,
        other => other,
    }
}

/// The reconnect-and-retry fires at most once per track: it fires only from
/// normal playback and leaves the state reconnecting; while reconnecting every
/// failure is an ignored echo; once the fresh session is up no failure
/// reconnects again. Only moving to another track (back to normal) renews it.
pub proof fn lemma_reconnect_retry_once(f: LoadFailure, g: LoadFailure, streak: u32, s2: u32)
    ensures
        load_failed_spec(f, SpRecovery::Reconnecting, streak) == (
            FailStep::Ignore,
            SpRecovery::Reconnecting,
            streak,
        ),
        load_failed_spec(f, SpRecovery::Reconnected, streak).0 != FailStep::Reconnect,
        load_failed_spec(f, SpRecovery::Reconnected, streak).1 == SpRecovery::Reconnected,
        forall|r: SpRecovery|
            load_failed_spec(f, r, streak).0 == FailStep::Reconnect ==> r == SpRecovery::Normal
                && load_failed_spec(f, r, streak).1 == SpRecovery::Reconnecting
                && load_failed_spec(
                g,
                load_failed_spec(f, r, streak).1,
                s2,
            ).0 != FailStep::Reconnect && load_failed_spec(
                g,
                session_connected_spec(load_failed_spec(f, r, streak).1),
                s2,
            ).0 != FailStep::Reconnect,
{
}

} // verus!
