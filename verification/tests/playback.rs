use lyrfin::playback::{AudioEvent, Clocks, Dvr, FollowUp};

const S: u64 = 1_000_000_000;

fn idle() -> Clocks {
    Clocks {
        sp_stream: false,
        sp_seek_target: None,
        sp_started: false,
        sp_pos: 0,
        sp_dur: 0,
        spotify_paused: false,
        radio: false,
        radio_paused: false,
        dvr: None,
        elapsed: 0,
        duration: 0,
        last_audio_progress: 0,
        tick: 7,
        dirty: false,
    }
}

#[test]
fn local_progress_moves_the_local_clock() {
    let mut c = idle();
    assert!(matches!(c.on_event(&AudioEvent::Progress(3 * S)), FollowUp::EnforceAbLoop));
    assert_eq!(c.elapsed, 3 * S);
    assert_eq!(c.last_audio_progress, 7);
    assert!(c.dirty);
    c.on_event(&AudioEvent::Duration(0));
    assert_eq!(c.duration, 0, "an unknown length is ignored");
    c.on_event(&AudioEvent::Duration(200 * S));
    assert_eq!(c.duration, 200 * S);
    assert!(matches!(c.on_event(&AudioEvent::Finished), FollowUp::AdvanceAfterFinish));
    assert!(matches!(c.on_event(&AudioEvent::Advanced), FollowUp::SoftAdvance));
}

#[test]
fn a_streamed_episode_owns_the_clock_and_a_scrub_locks_the_bar() {
    let mut c = idle();
    c.sp_stream = true;
    c.sp_dur = 60 * S;
    c.sp_seek_target = Some(30 * S);
    c.on_event(&AudioEvent::Progress(5 * S));
    assert_eq!(c.sp_pos, 0, "a stale position does not pull the bar back");
    assert!(c.sp_started);
    assert_eq!(c.sp_seek_target, Some(30 * S));
    c.on_event(&AudioEvent::Progress(31 * S));
    assert_eq!(c.sp_pos, 31 * S);
    assert_eq!(c.sp_seek_target, None, "reached the target: the clock resumes");
    c.on_event(&AudioEvent::Progress(75 * S));
    assert_eq!(c.sp_dur, 75 * S, "the length grows with playback past it");
    assert_eq!(c.elapsed, 0, "the local player stays frozen");
    match c.on_event(&AudioEvent::Error("boom".into())) {
        FollowUp::Notify(n) => assert_eq!(n, "Couldn't play this episode (stream unavailable)"),
        _ => panic!("expected a notice"),
    }
    assert!(c.spotify_paused && !c.sp_started);
}

#[test]
fn radio_tracks_the_timeshift_head() {
    let mut c = idle();
    c.radio = true;
    c.dvr = Some(Dvr { following: true, pos: 0, live: 40 * S });
    c.on_event(&AudioEvent::Progress(10 * S));
    assert_eq!(c.dvr.as_ref().unwrap().pos, 40 * S, "pinned to the live edge");
    c.dvr.as_mut().unwrap().following = false;
    c.on_event(&AudioEvent::Progress(10 * S));
    assert_eq!(c.dvr.as_ref().unwrap().pos, 10 * S);
    assert!(matches!(c.on_event(&AudioEvent::Finished), FollowUp::Nothing));
    assert!(c.radio_paused);
    match c.on_event(&AudioEvent::Error("x".into())) {
        FollowUp::Notify(n) => assert_eq!(n, "Couldn't play this station (unsupported or offline)"),
        _ => panic!("expected a notice"),
    }
}

#[test]
fn pump_applies_events_in_order() {
    let mut c = idle();
    let fs = c.pump_audio(&vec![]);
    assert!(fs.is_empty() && !c.dirty, "no events, no redraw");
    let fs = c.pump_audio(&vec![
        AudioEvent::Progress(S),
        AudioEvent::IcyTitle("Song".into()),
        AudioEvent::Error("bad".into()),
        AudioEvent::DvrWindow { start: 1, live: 2 },
    ]);
    assert_eq!(fs.len(), 4);
    assert!(c.dirty && c.elapsed == S);
    assert!(matches!(&fs[1], FollowUp::IcyTitle(t) if t == "Song"));
    assert!(matches!(&fs[2], FollowUp::Notify(t) if t == "Audio: bad"));
    assert!(matches!(fs[3], FollowUp::DvrWindow { start: 1, live: 2 }));
}

use lyrfin::playback::{age_notification, Notification};

#[test]
fn the_spotify_clock_ticks_only_while_playing() {
    let mut c = idle();
    c.sp_started = true;
    c.sp_dur = 10 * S;
    c.tick_spotify_clock(true, S / 2);
    assert_eq!(c.sp_pos, S / 2);
    c.tick_spotify_clock(true, 20 * S);
    assert_eq!(c.sp_pos, 10 * S, "held at the length");
    c.spotify_paused = true;
    c.sp_pos = S;
    c.tick_spotify_clock(true, S);
    assert_eq!(c.sp_pos, S, "paused");
    c.spotify_paused = false;
    c.sp_stream = true;
    c.tick_spotify_clock(true, S);
    assert_eq!(c.sp_pos, S, "a stream reports its own progress");
}

#[test]
fn notifications_age_out() {
    let mut n = Some(Notification { text: "hi".into(), ttl_ticks: 2 });
    assert!(!age_notification(&mut n));
    assert_eq!(n.as_ref().unwrap().ttl_ticks, 1);
    assert!(age_notification(&mut n));
    assert!(n.is_none());
    assert!(!age_notification(&mut n));
}
