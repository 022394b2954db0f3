//! Backing out of context: the layers Esc pops, in priority order, from a
//! pending prompt down to a drilled-into list.
//!
//! `go_back` pops exactly one layer and says which, so the caller can finish
//! the layers whose closing does more than clear a flag (saving the
//! equalizer, restoring a Spotify list from its back-stack, reloading a
//! section, stepping the local browser up a level).

use vstd::prelude::*;
use crate::spotify::SpNaming;
use crate::tags::{
    tag_activate_post, tag_confirm_post, tag_input_post, tag_move_post, tag_request_post,
    tag_source_post, tags_tab_step_post, toggle_tag_album_post, EditAction, ListStep, PendingApply,
    TabOpen, TagActivate, TagModal, TagSearch, edit_post, any_touched,
};
use crate::types::Layout;

verus! {

/// Where the command palette stands.
#[derive(Clone, Copy, PartialEq, Eq, Debug, Structural)]
pub enum PaletteCtx {
    /// The command list.
    Root,
    /// A value picker for one setting.
    Setting,
}

/// The Spotify add-to/create/rename playlist modal.
pub struct SpPlaylistModal {
    /// The name prompt being shown, if any (otherwise the playlist picker).
    pub naming: Option<SpNaming>,
    /// The tracks to add once a playlist is picked or created.
    pub add_uris: Vec<String>,
    /// The typed name.
    pub buffer: String,
}

/// The Spotify view's drill-in context that Esc backs out of.
pub struct SpotifyBack {
    /// A side pane has the focus.
    pub pane_focused: bool,
    /// The search box is being typed into.
    pub searching: bool,
    /// Drilled-in levels on the back-stack.
    pub nav_depth: usize,
    /// A container (album, playlist, ...) is open.
    pub open_item: bool,
    /// The list shows search results.
    pub in_search: bool,
    /// The typed search query.
    pub query: String,
    /// A list is loading.
    pub loading: bool,
}

/// Everything Esc can back out of.
pub struct Overlays {
    /// The logout confirmation.
    pub confirm_logout: bool,
    /// A key rebind waits for its key.
    pub rebinding: bool,
    /// The equalizer overlay, and its save-name entry.
    pub eq_open: bool,
    pub eq_naming: bool,
    /// The Tag Edit modal.
    pub tags: TagModal,
    /// The per-view settings popup, and its selected row.
    pub settings_popup: bool,
    pub settings_sel: usize,
    /// The command palette, with its query and selected row.
    pub palette: Option<PaletteCtx>,
    pub palette_query: String,
    pub palette_sel: usize,
    /// The delete confirmation.
    pub confirm_delete: bool,
    /// A name prompt, and the typed text.
    pub naming: bool,
    pub buffer: String,
    /// Tracks waiting to be added to a playlist.
    pub add_targets: Vec<u64>,
    /// The Spotify playlist unfollow confirmation.
    pub pl_confirm_delete: bool,
    /// The Spotify playlist modal.
    pub pl_modal: Option<SpPlaylistModal>,
    /// The library search is active (and has the focus).
    pub search_active: bool,
    /// The main list has the focus.
    pub focus_main: bool,
    /// The Info overlay.
    pub info_open: bool,
    /// The full Settings overlay.
    pub settings_overlay: bool,
    /// A visual-selection anchor.
    pub marks_anchor: bool,
    /// The marked tracks.
    pub marks: Vec<u64>,
    /// The current view.
    pub layout: Layout,
    /// Drilled-in levels of the home view's local browser.
    pub local_depth: usize,
    /// The Spotify view's drill-in context.
    pub sp: SpotifyBack,
    /// A browsed album or playlist shown in place of the queue, its title,
    /// and the selected row.
    pub browser_list: Vec<u64>,
    pub browser_title: String,
    pub selection: usize,
    /// The screen needs redrawing.
    pub dirty: bool,
}

/// The layer one Esc popped.
#[derive(Clone, Copy, PartialEq, Eq, Debug, Structural)]
pub enum BackStep {
    /// Nothing to back out of: the top level.
    Nothing,
    CancelLogout,
    CancelRebind,
    EqNaming,
    /// The equalizer closes; the caller saves and closes it.
    CloseEqualizer,
    CoverConfirm,
    CoverEditing,
    SearchPending,
    SearchEditing,
    CloseTags,
    SettingsPopup,
    PaletteToRoot,
    ClosePalette,
    ConfirmDelete,
    Naming,
    AddTargets,
    PlaylistConfirmDelete,
    /// The playlist modal's name prompt steps back to the picker.
    PlaylistToPicker,
    ClosePlaylistModal,
    Search,
    /// The Info overlay closes; the caller closes it.
    CloseInfo,
    SettingsOverlay,
    VisualAnchor,
    Marks,
    /// The local browser steps up a level; the caller restores the parent.
    LocalBack,
    SpotifyPane,
    SpotifySearching,
    /// The Spotify list goes back a level; the caller restores the parent
    /// list from the back-stack.
    SpotifyNavPop,
    /// The open Spotify container or search closes; the caller reloads the
    /// section.
    SpotifyReload,
    BrowserList,
}

/// Which layer Esc pops, in priority order.
pub open spec fn back_step(o: Overlays) -> BackStep {
    if o.confirm_logout {
        BackStep::CancelLogout
    } else if o.rebinding {
        BackStep::CancelRebind
    } else if o.eq_open {
        if o.eq_naming {
            BackStep::EqNaming
        } else {
            BackStep::CloseEqualizer
        }
    } else if o.tags.shown() {
        if o.tags.tab == 2 && o.tags.cover is Some && o.tags.cover->0.confirm {
            BackStep::CoverConfirm
        } else if o.tags.tab == 2 && o.tags.cover is Some && o.tags.cover->0.editing {
            BackStep::CoverEditing
        } else if o.tags.tab == 1 && o.tags.search is Some && o.tags.search->0.pending is Some {
            BackStep::SearchPending
        } else if o.tags.tab == 1 && o.tags.search is Some && o.tags.search->0.editing {
            BackStep::SearchEditing
        } else {
            BackStep::CloseTags
        }
    } else if o.settings_popup {
        BackStep::SettingsPopup
    } else if o.palette is Some {
        if o.palette == Some(PaletteCtx::Setting) {
            BackStep::PaletteToRoot
        } else {
            BackStep::ClosePalette
        }
    } else if o.confirm_delete {
        BackStep::ConfirmDelete
    } else if o.naming {
        BackStep::Naming
    } else if o.add_targets.len() > 0 {
        BackStep::AddTargets
    } else if o.pl_confirm_delete {
        BackStep::PlaylistConfirmDelete
    } else if o.pl_modal is Some {
        if o.pl_modal->0.naming == Some(SpNaming::New) && o.pl_modal->0.add_uris.len() > 0 {
            BackStep::PlaylistToPicker
        } else {
            BackStep::ClosePlaylistModal
        }
    } else if o.search_active {
        BackStep::Search
    } else if o.info_open {
        BackStep::CloseInfo
    } else if o.settings_overlay {
        BackStep::SettingsOverlay
    } else if o.marks_anchor {
        BackStep::VisualAnchor
    } else if o.marks.len() > 0 {
        BackStep::Marks
    } else if o.layout == Layout::Dashboard && o.local_depth > 0 {
        BackStep::LocalBack
    } else if o.layout == Layout::Spotify && o.sp.pane_focused {
        BackStep::SpotifyPane
    } else if o.layout == Layout::Spotify && o.sp.searching {
        BackStep::SpotifySearching
    } else if o.layout == Layout::Spotify && o.sp.nav_depth > 0 {
        BackStep::SpotifyNavPop
    } else if o.layout == Layout::Spotify && (o.sp.open_item || o.sp.in_search) {
        BackStep::SpotifyReload
    } else if o.browser_list.len() > 0 {
        BackStep::BrowserList
    } else {
        BackStep::Nothing
    }
}

/// What popping `step` does to the state: `n` is `o` with that one layer
/// popped and everything else as it was.
pub open spec fn popped(o: Overlays, n: Overlays, step: BackStep) -> bool {
    &&& n.confirm_logout == (o.confirm_logout && step != BackStep::CancelLogout)
    &&& n.rebinding == (o.rebinding && step != BackStep::CancelRebind)
    &&& n.eq_naming == (o.eq_naming && step != BackStep::EqNaming)
    &&& n.eq_open == (o.eq_open && step != BackStep::CloseEqualizer)
    &&& if step == BackStep::CloseTags {
        &&& n.tags.tab == 0
        &&& n.tags.edit is None
        &&& n.tags.search is None
        &&& n.tags.cover is None
    } else {
        &&& n.tags.tab == o.tags.tab
        &&& n.tags.edit == o.tags.edit
        &&& n.tags.search == if step == BackStep::SearchPending {
            Some(TagSearch { pending: None, ..o.tags.search->0 })
        } else if step == BackStep::SearchEditing {
            Some(TagSearch { editing: false, ..o.tags.search->0 })
        } else {
            o.tags.search
        }
        &&& n.tags.cover == if step == BackStep::CoverConfirm {
            Some(crate::tags::CoverModes { confirm: false, editing: o.tags.cover->0.editing })
        } else if step == BackStep::CoverEditing {
            Some(crate::tags::CoverModes { confirm: o.tags.cover->0.confirm, editing: false })
        } else {
            o.tags.cover
        }
    }
    &&& n.settings_popup == (o.settings_popup && step != BackStep::SettingsPopup)
    &&& n.settings_sel == if step == BackStep::SettingsPopup || step == BackStep::SettingsOverlay {
        0
    } else {
        o.settings_sel
    }
    &&& n.palette == if step == BackStep::PaletteToRoot {
        Some(PaletteCtx::Root)
    } else if step == BackStep::ClosePalette {
        None
    } else {
        o.palette
    }
    &&& if step == BackStep::PaletteToRoot {
        n.palette_query@.len() == 0 && n.palette_sel == 0
    } else {
        n.palette_query == o.palette_query && n.palette_sel == o.palette_sel
    }
    &&& n.confirm_delete == (o.confirm_delete && step != BackStep::ConfirmDelete)
    &&& n.naming == (o.naming && step != BackStep::Naming)
    &&& if step == BackStep::Naming {
        n.buffer@.len() == 0
    } else {
        n.buffer == o.buffer
    }
    &&& n.add_targets@ == if step == BackStep::AddTargets {
        Seq::<u64>::empty()
    } else {
        o.add_targets@
    }
    &&& n.pl_confirm_delete == (o.pl_confirm_delete && step != BackStep::PlaylistConfirmDelete)
    &&& if step == BackStep::ClosePlaylistModal {
        n.pl_modal is None
    } else if step == BackStep::PlaylistToPicker {
        n.pl_modal matches Some(m) && m.naming is None && m.buffer@.len() == 0 && m.add_uris
            == o.pl_modal->0.add_uris
    } else {
        n.pl_modal == o.pl_modal
    }
    &&& n.search_active == (o.search_active && step != BackStep::Search)
    &&& n.focus_main == (o.focus_main || step == BackStep::Search)
    &&& n.info_open == o.info_open
    &&& n.settings_overlay == (o.settings_overlay && step != BackStep::SettingsOverlay)
    &&& n.marks_anchor == (o.marks_anchor && step != BackStep::VisualAnchor)
    &&& n.marks@ == if step == BackStep::Marks {
        Seq::<u64>::empty()
    } else {
        o.marks@
    }
    &&& n.layout == o.layout
    &&& n.local_depth == if step == BackStep::LocalBack {
        (o.local_depth - 1) as usize
    } else {
        o.local_depth
    }
    &&& n.sp.pane_focused == (o.sp.pane_focused && step != BackStep::SpotifyPane)
    &&& n.sp.searching == (o.sp.searching && step != BackStep::SpotifySearching)
    &&& n.sp.nav_depth == if step == BackStep::SpotifyNavPop {
        (o.sp.nav_depth - 1) as usize
    } else {
        o.sp.nav_depth
    }
    &&& n.sp.loading == (o.sp.loading && step != BackStep::SpotifyNavPop)
    &&& n.sp.open_item == o.sp.open_item
    &&& n.sp.in_search == o.sp.in_search
    &&& if step == BackStep::SpotifyReload && o.sp.in_search && !o.sp.open_item {
        n.sp.query@.len() == 0
    } else {
        n.sp.query == o.sp.query
    }
    &&& n.browser_list@ == if step == BackStep::BrowserList {
        Seq::<u64>::empty()
    } else {
        o.browser_list@
    }
    &&& if step == BackStep::BrowserList {
        n.browser_title@.len() == 0 && n.selection == 0
    } else {
        n.browser_title == o.browser_title && n.selection == o.selection
    }
}

/// What popping `step` relies on being there.
pub open spec fn layer_present(o: Overlays, step: BackStep) -> bool {
    &&& (step == BackStep::CoverConfirm || step == BackStep::CoverEditing) ==> o.tags.cover is Some
    &&& (step == BackStep::SearchPending || step == BackStep::SearchEditing) ==> o.tags.search is Some
    &&& step == BackStep::PlaylistToPicker ==> o.pl_modal is Some
    &&& step == BackStep::LocalBack ==> o.local_depth > 0
    &&& step == BackStep::SpotifyNavPop ==> o.sp.nav_depth > 0
}

impl Overlays {
    /// Whether a modal overlay owns the screen (the settings popup or
    /// overlay, the Info overlay, or the equalizer), so that only its own
    /// navigation keys work.
    pub fn modal_overlay_open(&self) -> (b: bool)
        ensures
            b == (self.settings_popup || self.settings_overlay || self.info_open || self.eq_open),
    {
        self.settings_popup || self.settings_overlay || self.info_open || self.eq_open
    }

    /// The layer Esc would pop.
    pub fn back_layer(&self) -> (step: BackStep)
        ensures
            step == back_step(*self),
    {
        if self.confirm_logout {
            BackStep::CancelLogout
        } else if self.rebinding {
            BackStep::CancelRebind
        } else if self.eq_open {
            if self.eq_naming {
                BackStep::EqNaming
            } else {
                BackStep::CloseEqualizer
            }
        } else if self.tags.tags_open() {
            let cover_confirm = match &self.tags.cover {
                Some(c) => c.confirm,
                None => false,
            };
            let cover_editing = match &self.tags.cover {
                Some(c) => c.editing,
                None => false,
            };
            let search_pending = match &self.tags.search {
                Some(c) => c.pending.is_some(),
                None => false,
            };
            let search_editing = match &self.tags.search {
                Some(c) => c.editing,
                None => false,
            };
            if self.tags.tab == 2 && cover_confirm {
                BackStep::CoverConfirm
            } else if self.tags.tab == 2 && cover_editing {
                BackStep::CoverEditing
            } else if self.tags.tab == 1 && search_pending {
                BackStep::SearchPending
            } else if self.tags.tab == 1 && search_editing {
                BackStep::SearchEditing
            } else {
                BackStep::CloseTags
            }
        } else if self.settings_popup {
            BackStep::SettingsPopup
        } else if self.palette.is_some() {
            if self.palette == Some(PaletteCtx::Setting) {
                BackStep::PaletteToRoot
            } else {
                BackStep::ClosePalette
            }
        } else if self.confirm_delete {
            BackStep::ConfirmDelete
        } else if self.naming {
            BackStep::Naming
        } else if self.add_targets.len() > 0 {
            BackStep::AddTargets
        } else if self.pl_confirm_delete {
            BackStep::PlaylistConfirmDelete
        } else if self.pl_modal.is_some() {
            let to_picker = match &self.pl_modal {
                Some(m) => match &m.naming {
                    Some(SpNaming::New) => m.add_uris.len() > 0,
                    _ => false,
                },
                None => false,
            };
            if to_picker {
                BackStep::PlaylistToPicker
            } else {
                BackStep::ClosePlaylistModal
            }
        } else if self.search_active {
            BackStep::Search
        } else if self.info_open {
            BackStep::CloseInfo
        } else if self.settings_overlay {
            BackStep::SettingsOverlay
        } else if self.marks_anchor {
            BackStep::VisualAnchor
        } else if self.marks.len() > 0 {
            BackStep::Marks
        } else if self.layout == Layout::Dashboard && self.local_depth > 0 {
            BackStep::LocalBack
        } else if self.layout == Layout::Spotify && self.sp.pane_focused {
            BackStep::SpotifyPane
        } else if self.layout == Layout::Spotify && self.sp.searching {
            BackStep::SpotifySearching
        } else if self.layout == Layout::Spotify && self.sp.nav_depth > 0 {
            BackStep::SpotifyNavPop
        } else if self.layout == Layout::Spotify && (self.sp.open_item || self.sp.in_search) {
            BackStep::SpotifyReload
        } else if self.browser_list.len() > 0 {
            BackStep::BrowserList
        } else {
            BackStep::Nothing
        }
    }

    /// Pops the layer `step` (one of a group of layers), which is there to
    /// pop.
    #[verifier::rlimit(80)]
    #[verifier::spinoff_prover]
    fn pop_layer_0(&mut self, step: BackStep)
        requires
            layer_present(*old(self), step),
            step == BackStep::Nothing || step == BackStep::CancelLogout || step == BackStep::CancelRebind || step == BackStep::EqNaming || step == BackStep::CloseEqualizer || step == BackStep::CoverConfirm || step == BackStep::CoverEditing || step == BackStep::SearchPending || step == BackStep::SearchEditing || step == BackStep::CloseTags,
        ensures
            popped(*old(self), *final(self), step),
            final(self).dirty == old(self).dirty,
    {
        match step {
            BackStep::Nothing => {},
            BackStep::CancelLogout => {
                self.confirm_logout = false;
            },
            BackStep::CancelRebind => {
                self.rebinding = false;
            },
            BackStep::EqNaming => {
                self.eq_naming = false;
            },
            BackStep::CloseEqualizer => {
                self.eq_open = false;
            },
            BackStep::CoverConfirm => {
                let e = self.tags.cover.as_ref().unwrap().editing;
                self.tags.cover = Some(crate::tags::CoverModes { confirm: false, editing: e });
            },
            BackStep::CoverEditing => {
                let c = self.tags.cover.as_ref().unwrap().confirm;
                self.tags.cover = Some(crate::tags::CoverModes { confirm: c, editing: false });
            },
            BackStep::SearchPending => {
                match &mut self.tags.search {
                    Some(ts) => {
                        ts.pending = None;
                    },
                    None => {},
                }
            },
            BackStep::SearchEditing => {
                match &mut self.tags.search {
                    Some(ts) => {
                        ts.editing = false;
                    },
                    None => {},
                }
            },
            BackStep::CloseTags => {
                self.tags.close_tags();
            },
            _ => {},
        }
    }

    /// Pops the layer `step` (one of a group of layers), which is there to
    /// pop.
    #[verifier::rlimit(80)]
    #[verifier::spinoff_prover]
    fn pop_layer_1(&mut self, step: BackStep)
        requires
            layer_present(*old(self), step),
            step == BackStep::SettingsPopup || step == BackStep::PaletteToRoot || step == BackStep::ClosePalette || step == BackStep::ConfirmDelete || step == BackStep::Naming || step == BackStep::AddTargets || step == BackStep::PlaylistConfirmDelete || step == BackStep::PlaylistToPicker || step == BackStep::ClosePlaylistModal || step == BackStep::Search,
        ensures
            popped(*old(self), *final(self), step),
            final(self).dirty == old(self).dirty,
    {
        match step {
            BackStep::SettingsPopup => {
                self.settings_popup = false;
                self.settings_sel = 0;
            },
            BackStep::PaletteToRoot => {
                self.palette = Some(PaletteCtx::Root);
                self.palette_query = String::new();
                self.palette_sel = 0;
            },
            BackStep::ClosePalette => {
                self.palette = None;
            },
            BackStep::ConfirmDelete => {
                self.confirm_delete = false;
            },
            BackStep::Naming => {
                self.naming = false;
                self.buffer = String::new();
            },
            BackStep::AddTargets => {
                self.add_targets = Vec::new();
            },
            BackStep::PlaylistConfirmDelete => {
                self.pl_confirm_delete = false;
            },
            BackStep::PlaylistToPicker => {
                let mut modal: Option<SpPlaylistModal> = None;
                std::mem::swap(&mut modal, &mut self.pl_modal);
                let m = modal.unwrap();
                self.pl_modal = Some(
                    SpPlaylistModal { naming: None, add_uris: m.add_uris, buffer: String::new() },
                );
            },
            BackStep::ClosePlaylistModal => {
                self.pl_modal = None;
            },
            BackStep::Search => {
                self.search_active = false;
                self.focus_main = true;
            },
            _ => {},
        }
    }

    /// Pops the layer `step` (one of a group of layers), which is there to
    /// pop.
    #[verifier::rlimit(80)]
    #[verifier::spinoff_prover]
    fn pop_layer_2(&mut self, step: BackStep)
        requires
            layer_present(*old(self), step),
            step == BackStep::CloseInfo || step == BackStep::SettingsOverlay || step == BackStep::VisualAnchor || step == BackStep::Marks || step == BackStep::LocalBack || step == BackStep::SpotifyPane || step == BackStep::SpotifySearching || step == BackStep::SpotifyNavPop || step == BackStep::SpotifyReload || step == BackStep::BrowserList,
        ensures
            popped(*old(self), *final(self), step),
            final(self).dirty == old(self).dirty,
    {
        match step {
            BackStep::CloseInfo => {},
            BackStep::SettingsOverlay => {
                self.settings_overlay = false;
                self.settings_sel = 0;
            },
            BackStep::VisualAnchor => {
                self.marks_anchor = false;
            },
            BackStep::Marks => {
                self.marks = Vec::new();
            },
            BackStep::LocalBack => {
                self.local_depth = self.local_depth - 1;
            },
            BackStep::SpotifyPane => {
                self.sp.pane_focused = false;
            },
            BackStep::SpotifySearching => {
                self.sp.searching = false;
            },
            BackStep::SpotifyNavPop => {
                self.sp.nav_depth = self.sp.nav_depth - 1;
                self.sp.loading = false;
            },
            BackStep::SpotifyReload => {
                if !self.sp.open_item && self.sp.in_search {
                    self.sp.query = String::new();
                }
            },
            BackStep::BrowserList => {
                self.browser_list = Vec::new();
                self.browser_title = String::new();
                self.selection = 0;
            },
            _ => {},
        }
    }

    /// Pops the layer `step`, which is there to pop.
    fn pop_layer(&mut self, step: BackStep)
        requires
            layer_present(*old(self), step),
        ensures
            popped(*old(self), *final(self), step),
            final(self).dirty == old(self).dirty,
    {
        if step == BackStep::Nothing || step == BackStep::CancelLogout || step == BackStep::CancelRebind || step == BackStep::EqNaming || step == BackStep::CloseEqualizer || step == BackStep::CoverConfirm || step == BackStep::CoverEditing || step == BackStep::SearchPending || step == BackStep::SearchEditing || step == BackStep::CloseTags {
            self.pop_layer_0(step);
        } else if step == BackStep::SettingsPopup || step == BackStep::PaletteToRoot || step == BackStep::ClosePalette || step == BackStep::ConfirmDelete || step == BackStep::Naming || step == BackStep::AddTargets || step == BackStep::PlaylistConfirmDelete || step == BackStep::PlaylistToPicker || step == BackStep::ClosePlaylistModal || step == BackStep::Search {
            self.pop_layer_1(step);
        } else {
            self.pop_layer_2(step);
        }
    }

    /// Pops one layer of context (a prompt, the topmost overlay, a
    /// selection, a drilled-into list) in priority order and says which; at
    /// the top level nothing changes and the result is `Nothing`, so `q`
    /// quits there.
    pub fn go_back(&mut self) -> (step: BackStep)
        ensures
            step == back_step(*old(self)),
            popped(*old(self), *final(self), step),
            final(self).dirty == old(self).dirty,
    {
        let step = self.back_layer();
        self.pop_layer(step);
        step
    }
}

/// A user action on the overlay layer.
pub enum UiAction {
    /// Esc: pop one layer.
    Back,
    /// `q`: pop one layer, or quit at the top level.
    QuitOrBack,
    /// Tab / Shift-Tab inside a tabbed overlay.
    OverlayTab(i32),
    /// An action of the tag editor.
    Edit(EditAction),
    /// Close the Tag Edit modal.
    TagCancel,
    TagMove(ListStep),
    TagInput(String),
    TagActivate,
    /// Stage the album-wide apply.
    TagApplyAlbum,
    TagConfirm,
    TagToggleAlbum,
    TagSource(i32),
}

/// What an action leaves for the caller.
pub enum UiOutcome {
    Nothing,
    /// A layer was popped.
    Popped(BackStep),
    /// Quit the app.
    Quit,
    /// Step the Info overlay's tab.
    InfoTab(i32),
    /// Step the settings overlay's or popup's tab.
    SettingsTab(i32),
    /// Open the content of a Tag Edit tab visited for the first time.
    OpenTab(TabOpen),
    /// An apply-to-album was asked for with nothing changed.
    NoChanges,
    /// Run the tag search again.
    RunSearch,
    /// Perform the confirmed apply.
    Apply(PendingApply),
    /// Search the album sources.
    AlbumSearch,
}

/// What the search-tab action `a` does to the popup `o` (`n` after it).
pub open spec fn search_action_post(o: TagSearch, n: TagSearch, a: UiAction, out: UiOutcome) -> bool {
    match a {
        UiAction::TagMove(m) => tag_move_post(o, n, m) && out is Nothing,
        UiAction::TagInput(q) => tag_input_post(o, n, q) && out is Nothing,
        UiAction::TagActivate => tag_activate_post(
            o,
            n,
            if out is RunSearch {
                TagActivate::Search
            } else {
                TagActivate::Staged
            },
        ) && (out is RunSearch || out is Nothing),
        UiAction::TagApplyAlbum => tag_request_post(
            o,
            n,
            if o.album_mode {
                PendingApply::AlbumFull
            } else {
                PendingApply::AlbumBasic
            },
        ) && out is Nothing,
        UiAction::TagConfirm => tag_confirm_post(
            o,
            n,
            match out {
                UiOutcome::Apply(k) => Some(k),
                _ => None,
            },
        ) && (out is Apply || out is Nothing),
        UiAction::TagToggleAlbum => toggle_tag_album_post(o, n, out is AlbumSearch) && (
        out is AlbumSearch || out is Nothing),
        UiAction::TagSource(d) => tag_source_post(o, n, d) && out is Nothing,
        _ => true,
    }
}

impl Overlays {
    /// Applies a search-tab action to the open Auto Tag popup; without one
    /// nothing changes.
    #[verifier::spinoff_prover]
    fn update_search(&mut self, a: UiAction) -> (out: UiOutcome)
        requires
            old(self).tags.search matches Some(ts) ==> ts.wf(),
        ensures
            final(self).tags.edit == old(self).tags.edit,
            final(self).tags.tab == old(self).tags.tab,
            final(self).tags.cover == old(self).tags.cover,
            final(self).dirty == old(self).dirty,
            match old(self).tags.search {
                Some(o) => final(self).tags.search matches Some(n) && search_action_post(o, n, a, out),
                None => final(self).tags.search is None && out is Nothing,
            },
    {
        match &mut self.tags.search {
                    None => UiOutcome::Nothing,
                    Some(ts) => match a {
                        UiAction::TagMove(m) => {
                            ts.tag_move(m);
                            UiOutcome::Nothing
                        },
                        UiAction::TagInput(q) => {
                            ts.tag_input(q);
                            UiOutcome::Nothing
                        },
                        UiAction::TagActivate => {
                            if ts.tag_activate() == TagActivate::Search {
                                UiOutcome::RunSearch
                            } else {
                                UiOutcome::Nothing
                            }
                        },
                        UiAction::TagApplyAlbum => {
                            let kind = if ts.album_mode {
                                PendingApply::AlbumFull
                            } else {
                                PendingApply::AlbumBasic
                            };
                            ts.tag_request(kind);
                            UiOutcome::Nothing
                        },
                        UiAction::TagConfirm => match ts.tag_confirm() {
                            Some(k) => UiOutcome::Apply(k),
                            None => UiOutcome::Nothing,
                        },
                        UiAction::TagToggleAlbum => {
                            if ts.toggle_tag_album() {
                                UiOutcome::AlbumSearch
                            } else {
                                UiOutcome::Nothing
                            }
                        },
                        UiAction::TagSource(d) => {
                            ts.tag_source(d);
                            UiOutcome::Nothing
                        },
                        _ => UiOutcome::Nothing,
                    },
        }
    }

    /// Applies an overlay action, asking for a redraw: Esc pops one layer
    /// (and `q` quits at the top level); Tab steps whichever tabbed overlay
    /// owns the screen (Info, then the Tag Edit modal, then the settings);
    /// the tag actions drive the open editor or search popup.
    #[verifier::spinoff_prover]
    #[verifier::rlimit(40)]
    pub fn update(&mut self, a: UiAction, numeric: bool) -> (out: UiOutcome)
        requires
            old(self).tags.tab <= 2,
            old(self).tags.edit matches Some(te) ==> te.wf(),
            old(self).tags.edit matches Some(te) ==> te.focused().len() < usize::MAX,
            old(self).tags.search matches Some(ts) ==> ts.wf(),
        ensures
            final(self).dirty,
            match a {
                UiAction::Back => {
                    let step = back_step(*old(self));
                    &&& popped(*old(self), *final(self), step)
                    &&& out matches UiOutcome::Popped(p) && p == step
                },
                UiAction::QuitOrBack => {
                    let step = back_step(*old(self));
                    &&& popped(*old(self), *final(self), step)
                    &&& step == BackStep::Nothing ==> out is Quit
                    &&& step != BackStep::Nothing ==> (out matches UiOutcome::Popped(p) && p == step)
                },
                UiAction::OverlayTab(d) => if old(self).info_open {
                    (out matches UiOutcome::InfoTab(e) && e == d) && final(self).tags == old(self).tags
                } else if old(self).tags.shown() {
                    tags_tab_step_post(
                        old(self).tags,
                        final(self).tags,
                        d,
                        match out {
                            UiOutcome::OpenTab(t) => Some(t),
                            _ => None,
                        },
                    ) && (out is OpenTab || out is Nothing)
                } else if old(self).settings_overlay || old(self).settings_popup {
                    (out matches UiOutcome::SettingsTab(e) && e == d) && final(self).tags == old(self).tags
                } else {
                    out is Nothing && final(self).tags == old(self).tags
                },
                UiAction::Edit(e) => {
                    &&& final(self).tags.tab == old(self).tags.tab
                    &&& final(self).tags.search == old(self).tags.search
                    &&& final(self).tags.cover == old(self).tags.cover
                    &&& match old(self).tags.edit {
                        Some(o) => {
                            &&& final(self).tags.edit matches Some(n) && edit_post(o, n, e, numeric)
                            &&& (out is NoChanges) == (e is AlbumPrompt && !any_touched(o.touched@))
                        },
                        None => final(self).tags.edit is None && (out is NoChanges) == (
                        e is AlbumPrompt),
                    }
                    &&& out is NoChanges || out is Nothing
                },
                UiAction::TagCancel => out is Nothing && !final(self).tags.shown() && final(self).tags.tab == 0,
                _ => {
                    &&& final(self).tags.edit == old(self).tags.edit
                    &&& match old(self).tags.search {
                        Some(o) => final(self).tags.search matches Some(n) && search_action_post(
                            o,
                            n,
                            a,
                            out,
                        ),
                        None => final(self).tags.search is None && out is Nothing,
                    }
                },
            },
    {
        let out = match a {
            UiAction::Back => UiOutcome::Popped(self.go_back()),
            UiAction::QuitOrBack => {
                let step = self.go_back();
                if step == BackStep::Nothing {
                    UiOutcome::Quit
                } else {
                    UiOutcome::Popped(step)
                }
            },
            UiAction::OverlayTab(d) => {
                if self.info_open {
                    UiOutcome::InfoTab(d)
                } else if self.tags.tags_open() {
                    match self.tags.tags_tab_step(d) {
                        Some(t) => UiOutcome::OpenTab(t),
                        None => UiOutcome::Nothing,
                    }
                } else if self.settings_overlay || self.settings_popup {
                    UiOutcome::SettingsTab(d)
                } else {
                    UiOutcome::Nothing
                }
            },
            UiAction::Edit(e) => {
                if self.tags.update_edit(e, numeric) {
                    UiOutcome::NoChanges
                } else {
                    UiOutcome::Nothing
                }
            },
            UiAction::TagCancel => {
                self.tags.close_tags();
                UiOutcome::Nothing
            },
            _ => self.update_search(a),
        };
        self.dirty = true;
        out
    }
}

} // verus!
