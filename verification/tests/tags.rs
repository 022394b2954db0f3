use lyrfin::types::Layout;
use lyrfin::tags::{next_search_key, EditAction, TagResult, keep_digits, Caret, FieldStep, ListStep, PendingApply, SearchStatus, TabOpen, TagActivate, TagEdit, TagModal, TagSearch};

fn fields(v: &[&str]) -> Vec<String> {
    v.iter().map(|s| s.to_string()).collect()
}

fn editor() -> TagEdit {
    TagEdit::from_drafts(vec![7], &vec![fields(&["Song", "Artist", "Album", "3"])]).unwrap()
}

#[test]
fn bulk_edit_keeps_fields_that_differ() {
    let drafts = vec![fields(&["A", "Same", "X"]), fields(&["B", "Same", "X"]), fields(&["A", "Same", "Y"])];
    let te = TagEdit::from_drafts(vec![1, 2, 3], &drafts).unwrap();
    assert_eq!(te.keep, vec![true, false, true]);
    assert_eq!(te.draft, fields(&["", "Same", ""]));
    assert_eq!(te.touched, vec![false; 3]);
    assert_eq!(te.targets, vec![1, 2, 3]);
    assert!(!te.editing && te.cursor == 0);
    assert!(TagEdit::from_drafts(vec![], &vec![]).is_none(), "no track to edit");
}

#[test]
fn caret_edits_mid_string() {
    let mut te = editor();
    te.begin_edit();
    te.set_field("'Round".into(), false);
    te.move_caret(Caret::Home);
    te.delete(true);
    assert_eq!(te.draft[0], "Round");
    te.insert('A', false);
    assert_eq!(te.draft[0], "ARound");
    assert_eq!(te.caret, 1);
    te.move_caret(Caret::End);
    te.delete(false);
    assert_eq!(te.draft[0], "ARoun");
    te.move_caret(Caret::Home);
    te.delete(false);
    assert_eq!(te.draft[0], "ARoun", "backspace at the start does nothing");
}

#[test]
fn clearing_a_field_marks_it_for_writing() {
    let mut te = editor();
    te.clear();
    assert!(te.touched[0], "cleared field is written even though empty");
    assert_eq!(te.draft[0], "");
}

#[test]
fn numeric_fields_take_digits_only() {
    let mut te = editor();
    te.move_field(FieldStep::Prev);
    assert_eq!(te.cursor, 3, "wraps to the last field");
    assert_eq!(te.caret, 1);
    te.insert('x', true);
    assert_eq!(te.draft[3], "3");
    assert!(!te.touched[3]);
    te.insert('1', true);
    assert_eq!(te.draft[3], "31");
    te.set_field("a1b2".into(), true);
    assert_eq!(te.draft[3], "12");
    assert_eq!(keep_digits("7 of 12"), "712");
    te.move_field(FieldStep::Next);
    assert_eq!(te.cursor, 0, "wraps to the first field");
}

#[test]
fn case_transforms_apply_to_text_fields() {
    let mut te = editor();
    te.set_case(1, false);
    assert_eq!(te.draft[0], "SONG");
    te.set_case(2, false);
    assert_eq!(te.draft[0], "song");
    te.set_case(0, false);
    assert_eq!(te.draft[0], "Song");
    te.set_case(1, true);
    assert_eq!(te.draft[0], "Song", "a numeric field is left alone");
}

#[test]
fn album_apply_confirms_only_with_changes() {
    let mut te = editor();
    assert!(!te.album_prompt(), "no changes → nothing armed");
    assert!(!te.confirm_album);
    te.touched[2] = true;
    assert!(te.album_prompt());
    assert!(te.confirm_album);
    te.album_cancel();
    assert!(!te.confirm_album);
}

#[test]
fn a_save_writes_exactly_the_touched_fields() {
    let mut te = editor();
    assert!(te.begin_save().is_none(), "no changes");
    te.set_field("New".into(), false);
    te.confirm_album = true;
    assert_eq!(te.begin_save(), Some(vec![true, false, false, false]));
    assert!(!te.confirm_album, "the confirmation is consumed");
}

#[test]
fn finishing_a_save_reports_and_closes() {
    let mut m = TagModal::new();
    m.edit = Some(editor());
    let out = m.finish_save(0, Some("read-only".into()));
    assert_eq!(out.text, "Write failed: read-only");
    assert!(out.long && !out.closed && m.edit.is_some(), "edits survive a failed write");
    assert_eq!(m.finish_save(0, None).text, "Write failed: unknown");
    let out = m.finish_save(1, None);
    assert_eq!(out.text, "Tags saved");
    assert!(out.closed && !m.tags_open());
    m.edit = Some(editor());
    assert_eq!(m.finish_save(12, None).text, "Tags saved to 12 tracks");
    m.edit = Some(editor());
    assert_eq!(m.finish_save(3, Some("locked".into())).text, "Saved 3, some failed: locked");
}

#[test]
fn tabs_step_and_open_lazily() {
    let mut m = TagModal::new();
    assert_eq!(m.tags_tab_step(1), None, "a closed modal has no tabs");
    assert_eq!(m.tab, 0);
    m.edit = Some(editor());
    assert_eq!(m.tags_tab_step(1), Some(TabOpen::Search));
    assert_eq!(m.tab, 1);
    m.search = Some(search_popup());
    assert_eq!(m.tags_tab_step(-2), Some(TabOpen::Cover));
    assert_eq!(m.tab, 2);
    assert_eq!(m.tags_tab_step(1), None);
    assert_eq!(m.tab, 0);
    assert_eq!(m.tags_tab_step(-1), Some(TabOpen::Cover));
    assert_eq!(m.tags_tab_to(9), Some(TabOpen::Cover));
    assert_eq!(m.tab, 2);
    m.close_tags();
    assert!(!m.tags_open() && m.tab == 0);
}

#[test]
fn converter_and_replace_prompts() {
    let mut te = editor();
    te.convert_begin(true);
    assert_eq!(te.convert, Some((true, "#. T".to_string())));
    te.convert_type("%title%".into());
    assert_eq!(te.convert, Some((true, "%title%".to_string())));
    te.convert_cancel();
    te.convert_type("x".into());
    assert_eq!(te.convert, Some((false, "x".to_string())));
    te.replace_type("ignored".into());
    assert!(te.replace.is_none());
    te.replace_begin();
    te.replace_type("x".into());
    te.replace_toggle();
    te.replace_type("y".into());
    assert_eq!(te.replace, Some(("x".to_string(), "y".to_string(), true)));
    te.replace_cancel();
    assert!(te.replace.is_none());
}

fn search_popup() -> TagSearch {
    TagSearch {
        key: "ts1".into(),
        query: "Artist Song".into(),
        seeded: "Artist Song".into(),
        qcaret: 0,
        editing: false,
        status: SearchStatus::Searching,
        candidates: 0,
        sel: 0,
        album_mode: false,
        albums: 0,
        album_sel: 0,
        album_tracks: 0,
        track_sel: 0,
        pending: None,
    }
}

#[test]
fn the_search_popup_moves_and_stages_applies() {
    let mut ts = search_popup();
    ts.tag_move(ListStep::Down);
    assert_eq!(ts.sel, 0, "nothing to move through yet");
    assert_eq!(ts.tag_activate(), TagActivate::Staged);
    assert_eq!(ts.pending, None, "no candidate, nothing to apply");
    ts.on_found("ts0", 3);
    assert_eq!(ts.candidates, 0, "a stale result is dropped");
    ts.on_found("ts1", 3);
    assert!(matches!(ts.status, SearchStatus::Results));
    ts.tag_move(ListStep::Up);
    assert_eq!(ts.sel, 2, "wraps to the bottom");
    ts.tag_move(ListStep::Down);
    assert_eq!(ts.sel, 0);
    ts.tag_move(ListStep::Bottom);
    assert_eq!(ts.sel, 2);
    assert_eq!(ts.tag_activate(), TagActivate::Staged);
    assert_eq!(ts.pending, Some(PendingApply::Song));
    assert_eq!(ts.tag_confirm(), Some(PendingApply::Song));
    assert_eq!(ts.pending, None);
    assert_eq!(ts.tag_apply(), Some(2));
    assert!(matches!(ts.status, SearchStatus::Embedding));
}

#[test]
fn editing_the_query_searches_again_as_an_artist() {
    let mut ts = search_popup();
    ts.tag_input("Diana".into());
    assert!(ts.editing && ts.qcaret == 5);
    assert_eq!(ts.tag_apply(), None, "no apply while editing");
    assert_eq!(ts.tag_activate(), TagActivate::Search);
    assert!(!ts.editing);
    assert_eq!(ts.start_search("ts2".into()), Some(true), "the edited query is matched as an artist");
    assert_eq!(ts.key, "ts2");
    let mut seeded = search_popup();
    seeded.query = "  Artist Song ".into();
    assert_eq!(seeded.start_search("ts3".into()), Some(false));
    seeded.query = String::new();
    assert_eq!(seeded.start_search("ts4".into()), None);
    assert!(matches!(seeded.status, SearchStatus::Empty));
}

#[test]
fn album_mode_cycles_sources_and_tracks() {
    let mut ts = search_popup();
    assert!(ts.toggle_tag_album(), "album sources still to search");
    assert!(ts.start_album_search("ts5".into(), true));
    ts.on_album_found("ts5", 3);
    ts.album_tracks = 4;
    ts.tag_move(ListStep::Up);
    assert_eq!(ts.track_sel, 3);
    ts.tag_source(-1);
    assert_eq!((ts.album_sel, ts.track_sel), (2, 0));
    ts.tag_source(4);
    assert_eq!(ts.album_sel, 0);
    ts.tag_activate();
    assert_eq!(ts.pending, Some(PendingApply::AlbumFull));
    ts.on_search_error("ts5", "offline".into());
    assert!(matches!(&ts.status, SearchStatus::Error(m) if m == "offline"));
    assert!(!ts.toggle_tag_album());
}

#[test]
fn an_applied_result_closes_the_modal_and_rescans() {
    let mut m = TagModal::new();
    m.search = Some(search_popup());
    m.tab = 1;
    assert_eq!(m.on_applied("ts9", 2), None);
    assert!(m.tags_open());
    assert_eq!(m.on_applied("ts1", 2), Some(true));
    assert!(!m.tags_open() && m.tab == 0);
}

#[test]
fn edit_actions_drive_the_open_editor() {
    let mut m = TagModal::new();
    assert!(!m.update_edit(EditAction::Clear, false), "no editor: nothing happens");
    assert!(m.update_edit(EditAction::AlbumPrompt, false), "no editor: no changes to apply");
    m.edit = Some(editor());
    // move to the Artist field and type a new name
    m.update_edit(EditAction::Move(FieldStep::Next), false);
    m.update_edit(EditAction::BeginEdit, false);
    m.update_edit(EditAction::Type("New Name".into()), false);
    assert_eq!(m.edit.as_ref().unwrap().draft[1], "New Name");
    assert!(m.edit.as_ref().unwrap().editing);
    m.update_edit(EditAction::Caret(Caret::Home), false);
    m.update_edit(EditAction::Delete, false);
    m.update_edit(EditAction::Insert('K'), false);
    assert_eq!(m.edit.as_ref().unwrap().draft[1], "Kew Name");
    m.update_edit(EditAction::Backspace, false);
    assert_eq!(m.edit.as_ref().unwrap().draft[1], "ew Name");
    m.update_edit(EditAction::StopEdit, false);
    assert!(!m.edit.as_ref().unwrap().editing);
    assert!(!m.update_edit(EditAction::AlbumPrompt, false));
    assert!(m.edit.as_ref().unwrap().confirm_album);
    m.update_edit(EditAction::AlbumCancel, false);
    assert!(!m.edit.as_ref().unwrap().confirm_album);
    m.update_edit(EditAction::RenameBegin, false);
    assert_eq!(m.edit.as_ref().unwrap().convert, Some((true, "#. T".to_string())));
    m.update_edit(EditAction::ReplaceBegin, false);
    m.update_edit(EditAction::ReplaceType("a".into()), false);
    m.update_edit(EditAction::ReplaceToggle, false);
    m.update_edit(EditAction::ReplaceType("b".into()), false);
    assert_eq!(m.edit.as_ref().unwrap().replace, Some(("a".to_string(), "b".to_string(), true)));
    m.update_edit(EditAction::Case(1), false);
    assert_eq!(m.edit.as_ref().unwrap().draft[1], "EW NAME");
}

#[test]
fn tag_results_apply_only_to_the_open_request() {
    let mut m = TagModal::new();
    assert!(m.on_tag_result(TagResult::Found { key: "ts1".into(), count: 2 }).is_none());
    m.search = Some(search_popup());
    m.tab = 1;
    m.on_tag_result(TagResult::Found { key: "ts0".into(), count: 2 });
    assert_eq!(m.search.as_ref().unwrap().candidates, 0, "stale");
    m.on_tag_result(TagResult::Found { key: "ts1".into(), count: 2 });
    assert_eq!(m.search.as_ref().unwrap().candidates, 2);
    m.on_tag_result(TagResult::AlbumFound { key: "ts1".into(), count: 0 });
    assert!(matches!(m.search.as_ref().unwrap().status, SearchStatus::Empty));
    m.on_tag_result(TagResult::Error { key: "ts1".into(), msg: "offline".into() });
    assert!(matches!(&m.search.as_ref().unwrap().status, SearchStatus::Error(e) if e == "offline"));
    assert!(m.on_tag_result(TagResult::Applied { key: "ts7".into(), count: 1, msg: "x".into() }).is_none());
    assert_eq!(
        m.on_tag_result(TagResult::Applied { key: "ts1".into(), count: 0, msg: "Nothing written".into() }),
        Some((false, "Nothing written".to_string()))
    );
    assert!(!m.tags_open());
}

#[test]
fn the_modal_opens_only_on_local_music() {
    let mut m = TagModal::new();
    let drafts = vec![fields(&["Song", "Artist"])];
    assert_eq!(m.open_tags(Layout::Spotify, vec![1], &drafts).as_deref(), Some("Tag editing is for local music, not streams"));
    assert!(!m.tags_open());
    assert_eq!(m.open_tags(Layout::Dashboard, vec![], &vec![]).as_deref(), Some("No track to edit"));
    assert!(m.open_tags(Layout::Dashboard, vec![1], &drafts).is_none());
    assert!(m.tags_open() && m.tab == 0);
}

#[test]
fn the_search_popup_is_seeded_from_the_track() {
    let (ts, label) = TagSearch::open_tag_search("Jóga", "Björk", 10);
    assert_eq!(ts.query, "Björk Jóga");
    assert_eq!(ts.seeded, ts.query);
    assert_eq!(label, "Jóga · Björk");
    assert_eq!(ts.album_tracks, 10);
    let (ts, label) = TagSearch::open_tag_search("Intro", "", 1);
    assert_eq!(ts.query, "Intro");
    assert_eq!(label, "Intro");
    assert_eq!(TagSearch::open_tag_search("", "X", 1).1, "this track");
}

#[test]
fn each_search_gets_a_fresh_key() {
    let mut seq = 0u64;
    assert_eq!(next_search_key(&mut seq), "ts1");
    assert_eq!(next_search_key(&mut seq), "ts2");
    seq = 99;
    assert_eq!(next_search_key(&mut seq), "ts100");
}
