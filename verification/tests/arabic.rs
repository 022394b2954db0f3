use lyrfin::arabic::{base_rtl, contains_arabic, display_lines, reorder, reshape};
use unicode_width::UnicodeWidthStr;

#[test]
fn detects_and_reshapes() {
    assert!(contains_arabic("أصالة"));
    assert!(!contains_arabic("Assala"));
    let shaped = reshape("بسم");
    assert!(shaped.chars().all(|c| (c as u32) >= 0xFE70));
}

#[test]
fn latin_runs_stay_in_order() {
    assert_eq!(reorder("Assala Nasri", true), "Assala Nasri");
    assert_eq!(reorder("Assala Nasri", false), "Assala Nasri");
}

#[test]
fn base_direction_by_majority() {
    assert!(base_rtl("\u{0628}\u{0633}\u{0645} hi"));
    assert!(!base_rtl("hello world \u{0628}"));
    assert!(!base_rtl("hello"));
}

#[test]
fn brackets_mirror_in_rtl() {
    let out = reorder("(\u{0628})", true);
    let chars: Vec<char> = out.chars().collect();
    assert_eq!(chars.first(), Some(&'('));
    assert_eq!(chars.last(), Some(&')'));
}

#[test]
fn wraps_cjk_by_display_width() {
    let out = display_lines("안녕하세요세계", 10, false, false);
    assert!(
        out.iter().all(|l| l.width() <= 10),
        "no line exceeds the width: {out:?}"
    );
    assert!(out.len() >= 2, "the CJK run wraps: {out:?}");
}

#[test]
fn hard_breaks_and_hyphenates_a_long_word() {
    let out = display_lines("supercalifragilistic", 10, false, false);
    assert!(
        out.iter().all(|l| l.width() <= 10),
        "fits the width: {out:?}"
    );
    assert!(
        out[0].ends_with('-'),
        "a mid-word Latin break is hyphenated: {out:?}"
    );
    let joined: String = out.iter().map(|l| l.trim_end_matches('-')).collect();
    assert_eq!(
        joined, "supercalifragilistic",
        "round-trips without the hyphens"
    );
}

#[test]
fn justifies_tight_lines_but_leaves_sparse_ones_ragged() {
    let out = display_lines("ab cd ef gh ij", 12, false, true);
    assert!(out.len() >= 2, "{out:?}");
    assert_eq!(out[0].width(), 12, "a tight line fills the width: {out:?}");
    assert!(
        out.last().unwrap().width() <= 12,
        "the last line stays ragged: {out:?}"
    );
    let sparse = display_lines("the quick brown fox", 11, false, true);
    assert_eq!(
        sparse[0], "the quick",
        "sparse line stays single-spaced: {sparse:?}"
    );
}

#[test]
fn fill_hyphenates_a_boundary_word_to_pack_a_justified_line() {
    let out = display_lines("aa bbbbbbbb", 8, false, true);
    assert_eq!(
        out[0], "aa bbbb-",
        "boundary word hyphenated to fill: {out:?}"
    );
    assert_eq!(out[1], "bbbb", "the remainder continues next line: {out:?}");
}

#[test]
fn pure_latin_reorders_to_itself_in_either_base() {
    assert_eq!(reorder("a (b) c", false), "a (b) c");
    assert_eq!(reorder("", true), "");
}

#[test]
fn zero_width_wraps_as_one_column() {
    let out = display_lines("ab", 0, false, false);
    assert!(out.iter().all(|l| l.width() <= 1), "{out:?}");
}

#[test]
fn text_without_arabic_is_never_reshaped_or_reordered() {
    for s in ["Hello, (world)!", "  -- 42 [x] ?", "", "Björk — Jóga"] {
        assert_eq!(lyrfin::arabic::shape_line(s, true), s);
        assert_eq!(lyrfin::arabic::shape_line(s, false), s);
    }
}
