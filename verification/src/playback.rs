//! What the audio engine's events do to the playback clocks.
//!
//! One engine plays one thing at a time: a streamed Spotify episode, a radio
//! station, or the local queue. Each event moves the clock of whichever owns
//! the engine and leaves the others frozen. Times are in nanoseconds.

use vstd::prelude::*;

verus! {

/// How close (in nanoseconds) the engine's position must come to a scrub
/// target before the position bar follows the engine again.
pub const SEEK_CONFIRM_TOL: u64 = 2_000_000_000;

/// An event from the audio engine (the spectrum, which carries floats, is
/// handled by the caller).
pub enum AudioEvent {
    /// The play position.
    Progress(u64),
    /// The length of what is playing (zero: unknown).
    Duration(u64),
    /// The track or stream ended.
    Finished,
    /// A gapless switch to the queued next track happened.
    Advanced,
    /// A timeshifted stream's window: its oldest and live offsets.
    DvrWindow { start: u64, live: u64 },
    /// A new ICY stream title.
    IcyTitle(String),
    /// The engine could not open or decode what it was given.
    Error(String),
}

/// A timeshifted live stream's play-head.
pub struct Dvr {
    /// Following the live edge (not rewound).
    pub following: bool,
    pub pos: u64,
    pub live: u64,
}

/// The playback clocks the engine's events drive.
pub struct Clocks {
    /// A Spotify episode is streamed through the engine.
    pub sp_stream: bool,
    /// A scrub target the episode's position bar is locked to until the
    /// engine gets near it.
    pub sp_seek_target: Option<u64>,
    pub sp_started: bool,
    pub sp_pos: u64,
    pub sp_dur: u64,
    pub spotify_paused: bool,
    /// A radio station owns the engine.
    pub radio: bool,
    pub radio_paused: bool,
    /// The timeshift play-head of the station, when timeshifted.
    pub dvr: Option<Dvr>,
    /// The local player's position and track length.
    pub elapsed: u64,
    pub duration: u64,
    /// The UI tick of the last audio progress, and the current tick.
    pub last_audio_progress: u64,
    pub tick: u64,
    /// The screen needs redrawing.
    pub dirty: bool,
}

/// What an event asks of the caller beyond the clocks.
pub enum FollowUp {
    Nothing,
    /// Keep the local position inside the A-B loop.
    EnforceAbLoop,
    /// Record the timeshift window.
    DvrWindow { start: u64, live: u64 },
    /// The local track finished: advance the queue.
    AdvanceAfterFinish,
    /// The engine already moved to the next track: follow it.
    SoftAdvance,
    /// Show the station's new title.
    IcyTitle(String),
    /// Show this notice.
    Notify(String),
}

/// Whether `a` and `b` are within the scrub tolerance of each other.
pub open spec fn near(a: u64, b: u64) -> bool {
    if a >= b {
        a - b <= SEEK_CONFIRM_TOL
    } else {
        b - a <= SEEK_CONFIRM_TOL
    }
}

/// The clocks after a progress report at `pos`.
pub open spec fn after_progress(c: Clocks, pos: u64) -> Clocks {
    if c.sp_stream {
        if c.sp_seek_target is Some && !near(pos, c.sp_seek_target->0) {
            // a stale position while a scrub settles: the bar stays put
            Clocks { sp_started: true, last_audio_progress: c.tick, ..c }
        } else {
            Clocks {
                sp_seek_target: None,
                sp_pos: pos,
                sp_dur: if pos > c.sp_dur { pos } else { c.sp_dur },
                sp_started: true,
                last_audio_progress: c.tick,
                ..c
            }
        }
    } else if !c.radio {
        Clocks { elapsed: pos, last_audio_progress: c.tick, ..c }
    } else if c.dvr is Some {
        let d = c.dvr->0;
        Clocks {
            dvr: Some(Dvr { pos: if d.following { d.live } else { pos }, ..d }),
            last_audio_progress: c.tick,
            ..c
        }
    } else {
        c
    }
}

/// The clocks after the engine reports a length of `d`.
pub open spec fn after_duration(c: Clocks, d: u64) -> Clocks {
    if c.sp_stream {
        if d != 0 {
            Clocks { sp_dur: d, ..c }
        } else {
            c
        }
    } else if !c.radio && d != 0 {
        Clocks { duration: d, ..c }
    } else {
        c
    }
}

/// The clocks after the playing thing ends (or fails to play).
pub open spec fn after_end(c: Clocks) -> Clocks {
    if c.sp_stream {
        Clocks { spotify_paused: true, sp_started: false, ..c }
    } else if c.radio {
        Clocks { radio_paused: true, ..c }
    } else {
        c
    }
}

/// The clocks after one event (every event asks for a redraw).
pub open spec fn after_event(c: Clocks, ev: AudioEvent) -> Clocks {
    let moved = match ev {
        AudioEvent::Progress(pos) => after_progress(c, pos),
        AudioEvent::Duration(d) => after_duration(c, d),
        AudioEvent::Finished => after_end(c),
        AudioEvent::Error(_) => after_end(c),
        _ => c,
    };
    Clocks { dirty: true, ..moved }
}

/// The clocks after a run of events, in order.
pub open spec fn after_events(c: Clocks, evs: Seq<AudioEvent>) -> Clocks
    decreases evs.len(),
{
    if evs.len() == 0 {
        c
    } else {
        after_event(after_events(c, evs.drop_last()), evs.last())
    }
}

impl Clocks {
    /// Applies one engine event to the clocks and says what else it needs.
    /// Every event asks for a redraw.
    pub fn on_event(&mut self, ev: &AudioEvent) -> (f: FollowUp)
        ensures
            *final(self) == after_event(*old(self), *ev),
            match *ev {
                AudioEvent::Progress(pos) => {
                    &&& if !old(self).sp_stream && !old(self).radio {
                        f is EnforceAbLoop
                    } else {
                        f is Nothing
                    }
                },
                AudioEvent::Duration(d) => f is Nothing,
                AudioEvent::Finished => {
                    &&& if !old(self).sp_stream && !old(self).radio {
                        f is AdvanceAfterFinish
                    } else {
                        f is Nothing
                    }
                },
                AudioEvent::Advanced => f is SoftAdvance,
                AudioEvent::DvrWindow { start, live } => {
                    &&& f matches FollowUp::DvrWindow { start: s, live: l } && s == start && l
                        == live
                },
                AudioEvent::IcyTitle(t) => f matches FollowUp::IcyTitle(u) && u@ == t@,
                AudioEvent::Error(e) => {
                    &&& f matches FollowUp::Notify(n) && n@ == if old(self).sp_stream {
                        "Couldn't play this episode (stream unavailable)"@
                    } else if old(self).radio {
                        "Couldn't play this station (unsupported or offline)"@
                    } else {
                        "Audio: "@ + e@
                    }
                },
            },
    {
        self.dirty = true;
        match ev {
            AudioEvent::Progress(pos) => {
                let pos = *pos;
                if self.sp_stream {
                    let stale = match self.sp_seek_target {
                        Some(t) => if pos >= t {
                            pos - t > SEEK_CONFIRM_TOL
                        } else {
                            t - pos > SEEK_CONFIRM_TOL
                        },
                        None => false,
                    };
                    self.sp_started = true;
                    self.last_audio_progress = self.tick;
                    if !stale {
                        self.sp_seek_target = None;
                        self.sp_pos = pos;
                        if pos > self.sp_dur {
                            self.sp_dur = pos;
                        }
                    }
                    FollowUp::Nothing
                } else if !self.radio {
                    self.elapsed = pos;
                    self.last_audio_progress = self.tick;
                    FollowUp::EnforceAbLoop
                } else {
                    match &mut self.dvr {
                        Some(d) => {
                            d.pos = if d.following {
                                d.live
                            } else {
                                pos
                            };
                            self.last_audio_progress = self.tick;
                        },
                        None => {},
                    }
                    FollowUp::Nothing
                }
            },
            AudioEvent::Duration(d) => {
                let d = *d;
                if self.sp_stream {
                    if d != 0 {
                        self.sp_dur = d;
                    }
                } else if !self.radio && d != 0 {
                    self.duration = d;
                }
                FollowUp::Nothing
            },
            AudioEvent::Finished => {
                if self.sp_stream {
                    self.spotify_paused = true;
                    self.sp_started = false;
                    FollowUp::Nothing
                } else if self.radio {
                    self.radio_paused = true;
                    FollowUp::Nothing
                } else {
                    FollowUp::AdvanceAfterFinish
                }
            },
            AudioEvent::Advanced => FollowUp::SoftAdvance,
            AudioEvent::DvrWindow { start, live } => FollowUp::DvrWindow {
                start: *start,
                live: *live,
            },
            AudioEvent::IcyTitle(t) => FollowUp::IcyTitle(crate::text::string_from(t.as_str())),
            AudioEvent::Error(e) => {
                if self.sp_stream {
                    self.spotify_paused = true;
                    self.sp_started = false;
                    FollowUp::Notify(
                        crate::text::string_from("Couldn't play this episode (stream unavailable)"),
                    )
                } else if self.radio {
                    self.radio_paused = true;
                    FollowUp::Notify(
                        crate::text::string_from(
                            "Couldn't play this station (unsupported or offline)",
                        ),
                    )
                } else {
                    let mut n = crate::text::string_from("Audio: ");
                    crate::text::push_str(&mut n, e.as_str());
                    FollowUp::Notify(n)
                }
            },
        }
    }

    /// Applies the engine's pending events in order, returning what each
    /// asks of the caller; any event at all asks for a redraw.
    pub fn pump_audio(&mut self, events: &Vec<AudioEvent>) -> (fs: Vec<FollowUp>)
        ensures
            fs.len() == events.len(),
            *final(self) == after_events(*old(self), events@),
            events.len() > 0 ==> final(self).dirty,
    {
        let mut fs: Vec<FollowUp> = Vec::new();
        let mut k: usize = 0;
        while k < events.len()
            invariant
                k <= events.len(),
                fs.len() == k,
                *self == after_events(*old(self), events@.take(k as int)),
            decreases events.len() - k,
        {
            assert(events@.take(k as int + 1).drop_last() == events@.take(k as int));
            let f = self.on_event(&events[k]);
            fs.push(f);
            k += 1;
        }
        assert(events@.take(events.len() as int) == events@);
        fs
    }
}

impl Clocks {
    /// Advances the Spotify clock by one frame of `step` nanoseconds while a
    /// librespot track (`has_track`, not a streamed episode, whose engine
    /// reports progress itself) is playing and has started, up to its known
    /// length. librespot reports its position only on play and pause.
    pub fn tick_spotify_clock(&mut self, has_track: bool, step: u64)
        ensures
            ({
                let runs = has_track && old(self).sp_started && !old(self).spotify_paused
                    && !old(self).sp_stream && old(self).sp_dur > 0;
                &&& runs ==> final(self).sp_pos == if old(self).sp_pos + step < old(self).sp_dur {
                    (old(self).sp_pos + step) as u64
                } else {
                    old(self).sp_dur
                }
                &&& !runs ==> final(self).sp_pos == old(self).sp_pos
            }),
            final(self).sp_dur == old(self).sp_dur,
            final(self).elapsed == old(self).elapsed,
            final(self).dirty == old(self).dirty,
    {
        if has_track && self.sp_started && !self.spotify_paused && !self.sp_stream && self.sp_dur > 0 {
            self.sp_pos = if self.sp_pos < self.sp_dur && step < self.sp_dur - self.sp_pos {
                self.sp_pos + step
            } else {
                self.sp_dur
            };
        }
    }
}

/// A transient notification and the ticks it has left.
pub struct Notification {
    pub text: String,
    pub ttl_ticks: u32,
}

/// Ages the notification by one tick; it goes away when its time is up, and
/// the result says so (one more redraw clears it from the screen).
pub fn age_notification(n: &mut Option<Notification>) -> (cleared: bool)
    ensures
        match *old(n) {
            None => *final(n) is None && !cleared,
            Some(m) => if m.ttl_ticks <= 1 {
                *final(n) is None && cleared
            } else {
                !cleared && (*final(n) matches Some(k) && k.ttl_ticks == m.ttl_ticks - 1 && k.text
                    == m.text)
            },
        },
{
    let mut cur: Option<Notification> = None;
    std::mem::swap(&mut cur, n);
    match cur {
        None => false,
        Some(m) => {
            if m.ttl_ticks <= 1 {
                true
            } else {
                *n = Some(Notification { text: m.text, ttl_ticks: m.ttl_ticks - 1 });
                false
            }
        },
    }
}

} // verus!
