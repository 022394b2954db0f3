//! Shared value types: navigation, layout/panels and the settings vocabulary.

use vstd::prelude::*;

use crate::text::str_eq;

verus! {

/// Identifier of a local playlist.
#[derive(Debug, Clone, Copy, PartialEq, Eq, Structural)]
pub struct PlaylistId(pub u64);

/// Which edge a movable panel is docked to. Cycles L → T → R → B.
#[derive(Debug, Clone, Copy, PartialEq, Eq, Structural)]
pub enum Dock {
    Left,
    Right,
    Top,
    Bottom,
}

impl Default for Dock {
    fn default() -> (d: Dock)
        ensures
            d == Dock::Right,
    {
        Dock::Right
    }
}

/// The dock that follows `d` in the left → top → right → bottom cycle.
pub open spec fn dock_next(d: Dock) -> Dock {
    match d {
        Dock::Left => Dock::Top,
        Dock::Top => Dock::Right,
        Dock::Right => Dock::Bottom,
        Dock::Bottom => Dock::Left,
    }
}

/// The lowercase name of a dock edge, as stored in the config file.
pub open spec fn dock_label(d: Dock) -> Seq<char> {
    match d {
        Dock::Left => "left"@,
        Dock::Right => "right"@,
        Dock::Top => "top"@,
        Dock::Bottom => "bottom"@,
    }
}

/// The dock a config label names; anything unrecognised is the right edge.
pub open spec fn dock_of_label(s: Seq<char>) -> Dock {
    if s == "left"@ {
        Dock::Left
    } else if s == "top"@ {
        Dock::Top
    } else if s == "bottom"@ {
        Dock::Bottom
    } else {
        Dock::Right
    }
}

impl Dock {
    pub fn cycle(self) -> (d: Dock)
        ensures
            d == dock_next(self),
    {
        match self {
            Dock::Left => Dock::Top,
            Dock::Top => Dock::Right,
            Dock::Right => Dock::Bottom,
            Dock::Bottom => Dock::Left,
        }
    }

    pub fn label(self) -> (s: &'static str)
        ensures
            s@ == dock_label(self),
    {
        match self {
            Dock::Left => "left",
            Dock::Right => "right",
            Dock::Top => "top",
            Dock::Bottom => "bottom",
        }
    }

    pub fn from_label(s: &str) -> (d: Dock)
        ensures
            d == dock_of_label(s@),
    {
        if str_eq(s, "left") {
            Dock::Left
        } else if str_eq(s, "top") {
            Dock::Top
        } else if str_eq(s, "bottom") {
            Dock::Bottom
        } else {
            Dock::Right
        }
    }
}

/// Cycling the dock four times returns to the starting edge, and the cycle
/// visits every edge: no edge is its own successor.
pub proof fn lemma_dock_cycle_period(d: Dock)
    ensures
        dock_next(dock_next(dock_next(dock_next(d)))) == d,
        dock_next(d) != d,
        dock_next(dock_next(d)) != d,
        dock_next(dock_next(dock_next(d))) != d,
{
}

/// A dock's label reads back as the same dock.
pub proof fn lemma_dock_label_round_trip(d: Dock)
    ensures
        dock_of_label(dock_label(d)) == d,
{
    reveal_strlit("left");
    reveal_strlit("right");
    reveal_strlit("top");
    reveal_strlit("bottom");
    assert("right"@ != "left"@ && "right"@ != "top"@ && "right"@ != "bottom"@) by {
        assert("right"@.len() != "left"@.len());
        assert("right"@.len() != "top"@.len());
        assert("right"@.len() != "bottom"@.len());
    }
    assert("top"@ != "left"@ && "bottom"@ != "left"@ && "bottom"@ != "top"@) by {
        assert("top"@.len() != "left"@.len());
        assert("bottom"@.len() != "left"@.len());
        assert("bottom"@.len() != "top"@.len());
    }
}

/// Which source a lyrics pane represents.
#[derive(Debug, Clone, Copy, PartialEq, Eq, Structural)]
pub enum LyricsPane {
    Local,
    Spotify,
}

/// A movable, toggleable panel that a view can host.
#[derive(Debug, Clone, Copy, PartialEq, Eq, Hash, Structural)]
pub enum Panel {
    Queue,
    Sidebar,
    Artist,
    Visualizer,
    /// Synced/plain lyrics as a dockable pane.
    Lyrics,
}

/// Collapse priority: panes with a lower rank are hidden first.
pub open spec fn panel_rank(p: Panel) -> u8 {
    match p {
        Panel::Lyrics => 0,
        Panel::Visualizer => 1,
        Panel::Artist => 2,
        Panel::Queue => 3,
        Panel::Sidebar => 4,
    }
}

impl Panel {
    pub fn label(self) -> (s: &'static str)
        ensures
            s@ == match self {
                Panel::Queue => "Queue"@,
                Panel::Sidebar => "Sidebar"@,
                Panel::Artist => "Artist panel"@,
                Panel::Visualizer => "Visualizer"@,
                Panel::Lyrics => "Lyrics"@,
            },
    {
        match self {
            Panel::Queue => "Queue",
            Panel::Sidebar => "Sidebar",
            Panel::Artist => "Artist panel",
            Panel::Visualizer => "Visualizer",
            Panel::Lyrics => "Lyrics",
        }
    }

    pub fn key(self) -> (s: &'static str)
        ensures
            s@ == match self {
                Panel::Queue => "queue"@,
                Panel::Sidebar => "sidebar"@,
                Panel::Artist => "artist"@,
                Panel::Visualizer => "viz"@,
                Panel::Lyrics => "lyrics"@,
            },
    {
        match self {
            Panel::Queue => "queue",
            Panel::Sidebar => "sidebar",
            Panel::Artist => "artist",
            Panel::Visualizer => "viz",
            Panel::Lyrics => "lyrics",
        }
    }

    /// Collapse priority when the terminal runs out of room: panes with a LOWER
    /// rank are hidden first; the sidebar (navigation) is kept longest.
    pub fn collapse_rank(self) -> (r: u8)
        ensures
            r == panel_rank(self),
    {
        match self {
            Panel::Lyrics => 0,
            Panel::Visualizer => 1,
            Panel::Artist => 2,
            Panel::Queue => 3,
            Panel::Sidebar => 4,
        }
    }

    /// The size setting paired with this panel.
    pub fn size_setting(self) -> (s: Setting)
        ensures
            s == Setting::PanelSize(self),
    {
        Setting::PanelSize(self)
    }
}

/// Collapse ranks order the panes strictly: two different panes never share a
/// rank, and the sidebar outranks every other pane.
pub proof fn lemma_collapse_rank_strict(a: Panel, b: Panel)
    ensures
        a != b ==> panel_rank(a) != panel_rank(b),
        b != Panel::Sidebar ==> panel_rank(b) < panel_rank(Panel::Sidebar),
{
}

/// Per-view state of one panel: shown, which edge it's docked to, its size as a
/// percentage of the window along the dock axis, and its cross-axis weight.
#[derive(Debug, Clone, Copy, PartialEq, Eq, Structural)]
pub struct PanelCfg {
    pub shown: bool,
    pub dock: Dock,
    /// Percentage (1–100) of the window along the dock axis.
    pub size: u16,
    /// Relative weight along the cross axis when sharing an edge.
    pub len: u16,
}

/// Switchable screen arrangements.
#[derive(Debug, Clone, Copy, PartialEq, Eq, Hash, Structural)]
pub enum Layout {
    FullPlayer,
    LyricsFocus,
    Dashboard,
    /// Library: a 3-column "Miller" browser.
    LibraryFocus,
    /// Fullscreen, distraction-free now-playing.
    Concert,
    /// Internet radio.
    Radio,
    /// Spotify client view.
    Spotify,
}

/// Fixed character width of the status-bar view-name slot: every layout title
/// fits, so switching views never reflows the bar.
pub const VIEW_NAME_W: u16 = 7;

/// The status-bar name of a layout.
pub open spec fn layout_title(l: Layout) -> Seq<char> {
    match l {
        Layout::Dashboard => "Home"@,
        Layout::LibraryFocus => "Library"@,
        Layout::FullPlayer => "Playing"@,
        Layout::LyricsFocus => "Lyrics"@,
        Layout::Concert => "Concert"@,
        Layout::Radio => "Radio"@,
        Layout::Spotify => "Spotify"@,
    }
}

/// The movable panels a layout hosts, in layout order.
pub open spec fn layout_panels(l: Layout) -> Seq<Panel> {
    match l {
        Layout::Dashboard => seq![Panel::Sidebar, Panel::Queue, Panel::Artist, Panel::Lyrics],
        Layout::LibraryFocus => seq![Panel::Queue, Panel::Artist, Panel::Lyrics],
        Layout::FullPlayer => seq![Panel::Visualizer, Panel::Queue],
        Layout::LyricsFocus => seq![Panel::Visualizer, Panel::Queue],
        Layout::Spotify => seq![Panel::Sidebar, Panel::Queue, Panel::Artist, Panel::Lyrics],
        _ => seq![],
    }
}

/// Whether a panel is shown by default in a layout, and on which edge.
pub open spec fn default_shown_dock(l: Layout, p: Panel) -> (bool, Dock) {
    match (l, p) {
        (Layout::Dashboard, Panel::Sidebar) => (true, Dock::Left),
        (Layout::Dashboard, Panel::Artist) => (true, Dock::Left),
        (Layout::Dashboard, Panel::Queue) => (true, Dock::Right),
        (Layout::Dashboard, Panel::Lyrics) => (true, Dock::Right),
        (Layout::Spotify, Panel::Sidebar) => (true, Dock::Left),
        (_, Panel::Queue) => (false, Dock::Right),
        (Layout::LyricsFocus, Panel::Visualizer) => (false, Dock::Left),
        (Layout::FullPlayer, Panel::Visualizer) => (true, Dock::Top),
        _ => (false, Dock::Right),
    }
}

/// The default size (percentage along the dock axis) of a panel.
pub open spec fn default_size(p: Panel) -> u16 {
    match p {
        Panel::Sidebar => 22,
        Panel::Queue => 26,
        Panel::Artist => 26,
        Panel::Lyrics => 30,
        Panel::Visualizer => 40,
    }
}

impl Layout {
    /// Human-facing name shown in the status bar and command palette.
    pub fn title(self) -> (s: &'static str)
        ensures
            s@ == layout_title(self),
    {
        match self {
            Layout::Dashboard => "Home",
            Layout::LibraryFocus => "Library",
            Layout::FullPlayer => "Playing",
            Layout::LyricsFocus => "Lyrics",
            Layout::Concert => "Concert",
            Layout::Radio => "Radio",
            Layout::Spotify => "Spotify",
        }
    }

    /// Movable panels this view hosts (order = how they're laid out / listed).
    pub fn panels(self) -> (ps: Vec<Panel>)
        ensures
            ps@ == layout_panels(self),
    {
        match self {
            Layout::Dashboard => vec![Panel::Sidebar, Panel::Queue, Panel::Artist, Panel::Lyrics],
            Layout::LibraryFocus => vec![Panel::Queue, Panel::Artist, Panel::Lyrics],
            Layout::FullPlayer => vec![Panel::Visualizer, Panel::Queue],
            Layout::LyricsFocus => vec![Panel::Visualizer, Panel::Queue],
            Layout::Spotify => vec![Panel::Sidebar, Panel::Queue, Panel::Artist, Panel::Lyrics],
            _ => Vec::new(),
        }
    }

    /// Whether `panel` can be moved/resized in this view. The Now Playing
    /// visualizer is the main content (fills the view), so it's fixed.
    pub fn panel_movable(self, panel: Panel) -> (b: bool)
        ensures
            b == !(self == Layout::FullPlayer && panel == Panel::Visualizer),
    {
        !(self == Layout::FullPlayer && panel == Panel::Visualizer)
    }

    /// Default state of `panel` for this view.
    pub fn default_panel(self, panel: Panel) -> (c: PanelCfg)
        ensures
            c.shown == default_shown_dock(self, panel).0,
            c.dock == default_shown_dock(self, panel).1,
            c.size == default_size(panel),
            c.len == 50,
    {
        let (shown, dock) = match (self, panel) {
            (Layout::Dashboard, Panel::Sidebar) => (true, Dock::Left),
            (Layout::Dashboard, Panel::Artist) => (true, Dock::Left),
            (Layout::Dashboard, Panel::Queue) => (true, Dock::Right),
            (Layout::Dashboard, Panel::Lyrics) => (true, Dock::Right),
            (Layout::Spotify, Panel::Sidebar) => (true, Dock::Left),
            (_, Panel::Queue) => (false, Dock::Right),
            (Layout::LyricsFocus, Panel::Visualizer) => (false, Dock::Left),
            (Layout::FullPlayer, Panel::Visualizer) => (true, Dock::Top),
            _ => (false, Dock::Right),
        };
        let size: u16 = match panel {
            Panel::Sidebar => 22,
            Panel::Queue => 26,
            Panel::Artist => 26,
            Panel::Lyrics => 30,
            Panel::Visualizer => 40,
        };
        PanelCfg { shown, dock, size, len: 50 }
    }
}

/// Every layout title fits the fixed status-bar slot.
pub proof fn lemma_title_fits(l: Layout)
    ensures
        layout_title(l).len() <= VIEW_NAME_W,
{
    reveal_strlit("Home");
    reveal_strlit("Library");
    reveal_strlit("Playing");
    reveal_strlit("Lyrics");
    reveal_strlit("Concert");
    reveal_strlit("Radio");
    reveal_strlit("Spotify");
}

/// A default panel size is a percentage in 1..=100, and a panel a view hosts is
/// listed at most once.
pub proof fn lemma_default_panel_well_formed(l: Layout, p: Panel)
    ensures
        1 <= default_size(p) <= 100,
        forall|i: int, j: int|
            0 <= i < j < layout_panels(l).len() ==> layout_panels(l)[i] != layout_panels(l)[j],
{
}

/// Focusable regions of a source view.
#[derive(Debug, Clone, Copy, PartialEq, Eq, Structural)]
pub enum Focus {
    Sidebar,
    Main,
    Pane(Panel),
    Search,
}

/// Smart/discovery track lists.
#[derive(Debug, Clone, Copy, PartialEq, Eq, Structural)]
pub enum SmartList {
    AllTracks,
    RecentlyAdded,
    RecentlyPlayed,
    MostPlayed,
    Favorites,
    OnThisDay,
    Forgotten,
    Duplicates,
    Untagged,
}

/// Target of a text-entry: create/rename a playlist, or add a music directory.
#[derive(Debug, Clone, Copy)]
pub enum NameTarget {
    New,
    Rename(PlaylistId),
    AddMusicDir,
    /// Name a bookmark for the current search query.
    Bookmark,
    /// Name a smart playlist for the current search query.
    SmartPlaylist,
    /// Paste a private Spotify Client ID.
    SpotifyClientId,
}

/// A selectable row in the Settings tab.
#[derive(Debug, Clone, Copy, PartialEq, Eq, Structural)]
pub enum Setting {
    MusicDir(usize),
    AddDir,
    Rescan,
    Theme,
    ThemeFollowSystem,
    LightTheme,
    DarkTheme,
    AlbumArt,
    DynamicAccent,
    IconSet,
    PlayerViz,
    PlayerVizMode,
    PanesLayout,
    GridList,
    GridShape,
    GridSize,
    TrackColumns,
    Mouse,
    NextHint,
    OsMediaControls,
    TouchpadScroll,
    GridScrollLock,
    OverlaySize,
    ReducedMotion,
    PeakCaps,
    Fps,
    RadioRefresh,
    Gapless,
    Crossfade,
    SilenceSkip,
    ReplayGain,
    ColIndex,
    ColArtist,
    ColAlbumArtist,
    ColAlbum,
    ColYear,
    ColGenre,
    ColComposer,
    ColFormat,
    ColBitrate,
    ColRating,
    ColTime,
    ColPlays,
    ColComment,
    LyricsAlign,
    LyricsGap,
    LyricsGradient,
    LyricsColor,
    LyricsKaraoke,
    LyricsDual,
    LyricsTranslate,
    LyricsTeleprompter,
    PanelShow(Panel),
    PanelDock(Panel),
    PanelSize(Panel),
    SpotifyLogout,
    SpotifyClientId,
    SpotifyReauth,
    SpotifyBitrate,
    SpotifyShowAccount,
    Keybind(usize),
}

/// Top-level settings groups, in the global overlay's tab order.
pub open spec fn settings_groups() -> Seq<Seq<char>> {
    seq![
        "General"@,
        "Panes"@,
        "Grid"@,
        "Tracklist"@,
        "Audio"@,
        "Visualizer"@,
        "Lyrics"@,
        "Theme"@,
        "Spotify"@,
        "Library"@,
        "Keys"@,
    ]
}

/// The position, in [`settings_groups`], of the group a setting belongs to.
pub open spec fn setting_group_index(s: Setting) -> int {
    match s {
        Setting::Mouse | Setting::NextHint | Setting::OsMediaControls | Setting::TouchpadScroll
        | Setting::GridScrollLock | Setting::OverlaySize | Setting::ReducedMotion | Setting::Fps
        | Setting::IconSet | Setting::RadioRefresh => 0,
        Setting::PanelShow(_) | Setting::PanelDock(_) | Setting::PanelSize(_)
        | Setting::PanesLayout => 1,
        Setting::GridList | Setting::GridShape | Setting::GridSize => 2,
        Setting::TrackColumns | Setting::ColIndex | Setting::ColArtist | Setting::ColAlbumArtist
        | Setting::ColAlbum | Setting::ColYear | Setting::ColGenre | Setting::ColComposer
        | Setting::ColFormat | Setting::ColBitrate | Setting::ColRating | Setting::ColTime
        | Setting::ColPlays | Setting::ColComment => 3,
        Setting::Gapless | Setting::Crossfade | Setting::SilenceSkip | Setting::ReplayGain => 4,
        Setting::PlayerViz | Setting::PlayerVizMode | Setting::PeakCaps => 5,
        Setting::LyricsAlign | Setting::LyricsGap | Setting::LyricsGradient | Setting::LyricsColor
        | Setting::LyricsKaraoke | Setting::LyricsDual | Setting::LyricsTranslate
        | Setting::LyricsTeleprompter => 6,
        Setting::Theme | Setting::ThemeFollowSystem | Setting::LightTheme | Setting::DarkTheme
        | Setting::AlbumArt | Setting::DynamicAccent => 7,
        Setting::SpotifyLogout | Setting::SpotifyClientId | Setting::SpotifyReauth
        | Setting::SpotifyBitrate | Setting::SpotifyShowAccount => 8,
        Setting::MusicDir(_) | Setting::AddDir | Setting::Rescan => 9,
        Setting::Keybind(_) => 10,
    }
}

impl Setting {
    /// The top-level group this setting belongs to (one of the settings groups).
    pub fn group(self) -> (g: &'static str)
        ensures
            g@ == settings_groups()[setting_group_index(self)],
    {
        match self {
            Setting::Mouse | Setting::NextHint | Setting::OsMediaControls
            | Setting::TouchpadScroll | Setting::GridScrollLock | Setting::OverlaySize
            | Setting::ReducedMotion | Setting::Fps | Setting::IconSet
            | Setting::RadioRefresh => "General",
            Setting::PanelShow(_) | Setting::PanelDock(_) | Setting::PanelSize(_)
            | Setting::PanesLayout => "Panes",
            Setting::GridList | Setting::GridShape | Setting::GridSize => "Grid",
            Setting::TrackColumns | Setting::ColIndex | Setting::ColArtist
            | Setting::ColAlbumArtist | Setting::ColAlbum | Setting::ColYear | Setting::ColGenre
            | Setting::ColComposer | Setting::ColFormat | Setting::ColBitrate
            | Setting::ColRating | Setting::ColTime | Setting::ColPlays
            | Setting::ColComment => "Tracklist",
            Setting::Gapless | Setting::Crossfade | Setting::SilenceSkip
            | Setting::ReplayGain => "Audio",
            Setting::PlayerViz | Setting::PlayerVizMode | Setting::PeakCaps => "Visualizer",
            Setting::LyricsAlign | Setting::LyricsGap | Setting::LyricsGradient
            | Setting::LyricsColor | Setting::LyricsKaraoke | Setting::LyricsDual
            | Setting::LyricsTranslate | Setting::LyricsTeleprompter => "Lyrics",
            Setting::Theme | Setting::ThemeFollowSystem | Setting::LightTheme
            | Setting::DarkTheme | Setting::AlbumArt | Setting::DynamicAccent => "Theme",
            Setting::SpotifyLogout | Setting::SpotifyClientId | Setting::SpotifyReauth
            | Setting::SpotifyBitrate | Setting::SpotifyShowAccount => "Spotify",
            Setting::MusicDir(_) | Setting::AddDir | Setting::Rescan => "Library",
            Setting::Keybind(_) => "Keys",
        }
    }
}

/// Every setting belongs to exactly one of the settings groups.
pub proof fn lemma_setting_group_listed(s: Setting)
    ensures
        0 <= setting_group_index(s) < settings_groups().len(),
{
}

} // verus!
