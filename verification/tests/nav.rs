use lyrfin::nav::{BackStep, Overlays, PaletteCtx, SpPlaylistModal, SpotifyBack, UiAction, UiOutcome};
use lyrfin::tags::{EditAction, ListStep, TabOpen, TagEdit};
use lyrfin::spotify::SpNaming;
use lyrfin::tags::{CoverModes, PendingApply, SearchStatus, TagModal, TagSearch};
use lyrfin::types::Layout;

fn top(layout: Layout) -> Overlays {
    Overlays {
        confirm_logout: false,
        rebinding: false,
        eq_open: false,
        eq_naming: false,
        tags: TagModal::new(),
        settings_popup: false,
        settings_sel: 0,
        palette: None,
        palette_query: String::new(),
        palette_sel: 0,
        confirm_delete: false,
        naming: false,
        buffer: String::new(),
        add_targets: Vec::new(),
        pl_confirm_delete: false,
        pl_modal: None,
        search_active: false,
        focus_main: true,
        info_open: false,
        settings_overlay: false,
        marks_anchor: false,
        marks: Vec::new(),
        layout,
        local_depth: 0,
        sp: SpotifyBack {
            pane_focused: false,
            searching: false,
            nav_depth: 0,
            open_item: false,
            in_search: false,
            query: String::new(),
            loading: false,
        },
        browser_list: Vec::new(),
        browser_title: String::new(),
        selection: 0,
        dirty: false,
    }
}

#[test]
fn nothing_to_back_out_of_at_the_top_level() {
    let mut o = top(Layout::Dashboard);
    assert_eq!(o.go_back(), BackStep::Nothing);
    assert_eq!(o.back_layer(), BackStep::Nothing);
}

#[test]
fn layers_pop_one_at_a_time_in_priority_order() {
    let mut o = top(Layout::Dashboard);
    o.confirm_logout = true;
    o.eq_open = true;
    o.eq_naming = true;
    o.marks = vec![1, 2];
    o.marks_anchor = true;
    o.local_depth = 1;
    assert_eq!(o.go_back(), BackStep::CancelLogout);
    assert!(o.eq_naming && o.eq_open);
    assert_eq!(o.go_back(), BackStep::EqNaming);
    assert!(o.eq_open);
    assert_eq!(o.go_back(), BackStep::CloseEqualizer);
    assert_eq!(o.go_back(), BackStep::VisualAnchor);
    assert_eq!(o.marks, vec![1, 2]);
    assert_eq!(o.go_back(), BackStep::Marks);
    assert!(o.marks.is_empty());
    assert_eq!(o.go_back(), BackStep::LocalBack);
    assert_eq!(o.local_depth, 0);
    assert_eq!(o.go_back(), BackStep::Nothing);
}

#[test]
fn the_tag_modal_backs_out_of_its_sub_modes_first() {
    let mut o = top(Layout::Dashboard);
    o.tags.tab = 2;
    o.tags.cover = Some(CoverModes { confirm: true, editing: true });
    assert_eq!(o.go_back(), BackStep::CoverConfirm);
    assert_eq!(o.go_back(), BackStep::CoverEditing);
    assert_eq!(o.go_back(), BackStep::CloseTags);
    assert!(!o.tags.tags_open());
    o.tags.tab = 1;
    let mut ts = search_popup();
    ts.pending = Some(PendingApply::Song);
    ts.editing = true;
    o.tags.search = Some(ts);
    assert_eq!(o.go_back(), BackStep::SearchPending);
    assert_eq!(o.go_back(), BackStep::SearchEditing);
    assert_eq!(o.go_back(), BackStep::CloseTags);
    assert_eq!(o.tags.tab, 0);
}

#[test]
fn palette_picker_returns_to_the_root_then_closes() {
    let mut o = top(Layout::Radio);
    o.palette = Some(PaletteCtx::Setting);
    o.palette_query = "vol".into();
    o.palette_sel = 3;
    assert_eq!(o.go_back(), BackStep::PaletteToRoot);
    assert_eq!(o.palette, Some(PaletteCtx::Root));
    assert!(o.palette_query.is_empty() && o.palette_sel == 0);
    assert_eq!(o.go_back(), BackStep::ClosePalette);
    assert_eq!(o.palette, None);
}

#[test]
fn esc_from_a_seeded_new_playlist_prompt_returns_to_the_picker() {
    let mut o = top(Layout::Spotify);
    o.pl_modal = Some(SpPlaylistModal {
        naming: Some(SpNaming::New),
        add_uris: vec!["spotify:track:1".into()],
        buffer: "Mix".into(),
    });
    assert_eq!(o.go_back(), BackStep::PlaylistToPicker);
    let m = o.pl_modal.as_ref().expect("modal still open");
    assert!(m.naming.is_none() && m.buffer.is_empty());
    assert_eq!(m.add_uris, vec!["spotify:track:1".to_string()]);
    assert_eq!(o.go_back(), BackStep::ClosePlaylistModal);
    assert!(o.pl_modal.is_none());
}

#[test]
fn spotify_drill_in_pops_back_then_reloads_the_section() {
    let mut o = top(Layout::Spotify);
    o.sp.pane_focused = true;
    o.sp.nav_depth = 2;
    o.sp.in_search = true;
    o.sp.query = "abba".into();
    o.sp.loading = true;
    assert_eq!(o.go_back(), BackStep::SpotifyPane);
    assert_eq!(o.go_back(), BackStep::SpotifyNavPop);
    assert_eq!(o.sp.nav_depth, 1);
    assert!(!o.sp.loading);
    assert_eq!(o.go_back(), BackStep::SpotifyNavPop);
    assert_eq!(o.go_back(), BackStep::SpotifyReload);
    assert!(o.sp.query.is_empty(), "leaving a search clears the query");
}

#[test]
fn a_browsed_list_returns_to_the_queue() {
    let mut o = top(Layout::LibraryFocus);
    o.browser_list = vec![4, 5];
    o.browser_title = "Album".into();
    o.selection = 1;
    o.search_active = true;
    o.focus_main = false;
    assert_eq!(o.go_back(), BackStep::Search);
    assert!(o.focus_main);
    assert_eq!(o.go_back(), BackStep::BrowserList);
    assert!(o.browser_list.is_empty() && o.browser_title.is_empty() && o.selection == 0);
}

fn search_popup() -> TagSearch {
    TagSearch {
        key: "ts1".into(),
        query: "Artist Song".into(),
        seeded: "Artist Song".into(),
        qcaret: 0,
        editing: false,
        status: SearchStatus::Searching,
        candidates: 0,
        sel: 0,
        album_mode: false,
        albums: 0,
        album_sel: 0,
        album_tracks: 0,
        track_sel: 0,
        pending: None,
    }
}

#[test]
fn modal_overlays_own_the_screen() {
    let mut o = top(Layout::Dashboard);
    assert!(!o.modal_overlay_open());
    o.info_open = true;
    assert!(o.modal_overlay_open());
}

#[test]
fn overlay_actions_dispatch_and_redraw() {
    let mut o = top(Layout::Dashboard);
    assert!(matches!(o.update(UiAction::QuitOrBack, false), UiOutcome::Quit), "q quits at the top level");
    assert!(o.dirty);
    o.marks = vec![3];
    assert!(matches!(o.update(UiAction::QuitOrBack, false), UiOutcome::Popped(BackStep::Marks)));
    o.tags.edit = TagEdit::from_drafts(vec![1], &vec![vec!["T".to_string(), "A".to_string()]]);
    assert!(matches!(o.update(UiAction::OverlayTab(1), false), UiOutcome::OpenTab(TabOpen::Search)));
    assert_eq!(o.tags.tab, 1);
    assert!(matches!(o.update(UiAction::Edit(EditAction::AlbumPrompt), false), UiOutcome::NoChanges));
    o.update(UiAction::Edit(EditAction::Type("New".into())), false);
    assert_eq!(o.tags.edit.as_ref().unwrap().draft[0], "New");
    assert!(matches!(o.update(UiAction::TagMove(ListStep::Down), false), UiOutcome::Nothing), "no search popup yet");
    o.tags.search = Some(search_popup());
    o.tags.search.as_mut().unwrap().candidates = 2;
    o.update(UiAction::TagMove(ListStep::Down), false);
    assert_eq!(o.tags.search.as_ref().unwrap().sel, 1);
    o.update(UiAction::TagActivate, false);
    assert!(matches!(o.update(UiAction::TagConfirm, false), UiOutcome::Apply(PendingApply::Song)));
    o.update(UiAction::TagInput("x".into()), false);
    assert!(matches!(o.update(UiAction::TagActivate, false), UiOutcome::RunSearch));
    assert!(matches!(o.update(UiAction::TagToggleAlbum, false), UiOutcome::AlbumSearch));
    o.update(UiAction::TagCancel, false);
    assert!(!o.tags.tags_open());
    o.info_open = true;
    assert!(matches!(o.update(UiAction::OverlayTab(-1), false), UiOutcome::InfoTab(-1)));
}
