use lyrfin::types::{Dock, Layout, Panel};

#[test]
fn dock_cycles_through_all_four_edges() {
    let d = Dock::Left;
    assert_eq!(d.cycle().cycle().cycle().cycle(), d);
    for d in [Dock::Left, Dock::Right, Dock::Top, Dock::Bottom] {
        assert_eq!(Dock::from_label(d.label()), d);
    }
}

#[test]
fn every_layout_lists_its_panels() {
    for l in [Layout::Dashboard, Layout::Spotify] {
        let ps = l.panels();
        assert!(!ps.is_empty());
        assert!(!l.title().is_empty());
    }
    assert!(!Panel::Artist.label().is_empty());
}
