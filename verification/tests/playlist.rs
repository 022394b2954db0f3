use lyrfin::spotify::{plan_remove, RemovePlan, SP_MAX_REBUILD};

fn uris(n: usize) -> Vec<String> {
    (0..n).map(|i| format!("spotify:track:{i}")).collect()
}

fn targets(ts: &[&str]) -> Vec<String> {
    ts.iter().map(|s| s.to_string()).collect()
}

#[test]
fn remove_over_100_tracks_is_refused_and_changes_nothing() {
    assert_eq!(
        plan_remove(uris(101), &targets(&["spotify:track:5"]), 100),
        RemovePlan::TooLarge
    );
}

#[test]
fn remove_at_exactly_100_is_safe() {
    let plan = plan_remove(uris(100), &targets(&["spotify:track:0"]), 100);
    match plan {
        RemovePlan::Replace(r) => {
            assert_eq!(r.len(), 99, "removed exactly one");
            assert!(!r.iter().any(|u| u == "spotify:track:0"), "target gone");
        }
        other => panic!("expected Replace, got {other:?}"),
    }
}

#[test]
fn remove_drops_only_the_target_and_keeps_order() {
    let plan = plan_remove(uris(5), &targets(&["spotify:track:2"]), 100);
    assert_eq!(
        plan,
        RemovePlan::Replace(vec![
            "spotify:track:0".into(),
            "spotify:track:1".into(),
            "spotify:track:3".into(),
            "spotify:track:4".into(),
        ])
    );
}

#[test]
fn remove_drops_every_selected_target_and_keeps_order() {
    let plan = plan_remove(
        uris(5),
        &targets(&["spotify:track:1", "spotify:track:3"]),
        100,
    );
    assert_eq!(
        plan,
        RemovePlan::Replace(vec![
            "spotify:track:0".into(),
            "spotify:track:2".into(),
            "spotify:track:4".into(),
        ])
    );
}

#[test]
fn remove_ignores_targets_not_present_but_removes_the_rest() {
    let plan = plan_remove(
        uris(3),
        &targets(&["spotify:track:1", "spotify:track:99"]),
        100,
    );
    assert_eq!(
        plan,
        RemovePlan::Replace(vec!["spotify:track:0".into(), "spotify:track:2".into()])
    );
}

#[test]
fn remove_missing_target_is_a_noop_not_a_replace() {
    assert_eq!(
        plan_remove(uris(3), &targets(&["spotify:track:99"]), 100),
        RemovePlan::NotFound
    );
}

#[test]
fn remove_last_track_yields_empty_replace() {
    assert_eq!(
        plan_remove(
            vec!["spotify:track:0".into()],
            &targets(&["spotify:track:0"]),
            100
        ),
        RemovePlan::Replace(vec![])
    );
}

#[test]
fn remove_result_is_always_shorter_never_longer() {
    for n in 0..=100 {
        if let RemovePlan::Replace(r) = plan_remove(uris(n), &targets(&["spotify:track:0"]), 100) {
            assert!(r.len() < n, "replace never grows the playlist");
        }
    }
}

#[test]
fn remove_drops_duplicate_occurrences_of_a_target() {
    let list = vec![
        "spotify:track:1".to_string(),
        "spotify:track:2".to_string(),
        "spotify:track:1".to_string(),
    ];
    assert_eq!(
        plan_remove(list, &targets(&["spotify:track:1"]), SP_MAX_REBUILD),
        RemovePlan::Replace(vec!["spotify:track:2".into()])
    );
}

#[test]
fn remove_from_an_empty_playlist_finds_nothing() {
    assert_eq!(
        plan_remove(vec![], &targets(&["spotify:track:1"]), SP_MAX_REBUILD),
        RemovePlan::NotFound
    );
}
