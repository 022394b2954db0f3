//! The tag editor: a session over one or more tracks whose fields are edited
//! in a draft, and the three-tab Tag Edit modal that holds it.
//!
//! For a bulk edit, a field whose value differs across the selection starts
//! as `<keep>`: empty in the draft and left alone on save unless the user
//! edits it. Only fields the user touched (typed, cleared or transformed) are
//! written, so emptying a `<keep>` field clears it across the whole
//! selection. Reading and writing the files is the caller's part; this
//! module decides what the draft holds and which fields a save writes.

use vstd::prelude::*;
use crate::text::{chars_of, decimal, push_decimal, push_str, str_eq, string_from, string_of};
use crate::unicode::{lower_str, to_lower_str, to_upper_str, upper_str};
use crate::artistinfo::{title_case, title_upto};
use crate::text::trim_spec;
use crate::types::Layout;

verus! {

/// Where a field move goes.
#[derive(Clone, Copy, PartialEq, Eq, Debug, Structural)]
pub enum FieldStep {
    /// The previous field, wrapping from the first to the last.
    Prev,
    /// The next field, wrapping from the last to the first.
    Next,
    /// Stay on the focused field.
    Stay,
}

/// A caret motion inside the focused field.
#[derive(Clone, Copy, PartialEq, Eq, Debug, Structural)]
pub enum Caret {
    Left,
    Right,
    Home,
    End,
}

/// A tag-editor session over one or more tracks.
pub struct TagEdit {
    /// The tracks the edit applies to.
    pub targets: Vec<u64>,
    /// The edited value of each field.
    pub draft: Vec<String>,
    /// Per field: `<keep>`, mixed across the selection and not written.
    pub keep: Vec<bool>,
    /// Per field: the user changed it, so a save writes it (even empty).
    pub touched: Vec<bool>,
    /// The focused field.
    pub cursor: usize,
    /// The caret (a char index) in the focused field while editing.
    pub caret: usize,
    /// The converter prompt: `(to_filename, pattern)`; `to_filename` renames
    /// files from the tags, otherwise tags are parsed from the filename.
    pub convert: Option<(bool, String)>,
    /// The find-and-replace prompt: `(find, replace, on_replace)`, where
    /// `on_replace` says typing goes to the replacement box.
    pub replace: Option<(String, String, bool)>,
    /// Typing into the focused field (otherwise browsing the fields).
    pub editing: bool,
    /// Awaiting confirmation of an apply-to-album write.
    pub confirm_album: bool,
}

/// Which apply the Auto Tag popup is confirming.
#[derive(Clone, Copy, PartialEq, Eq, Debug, Structural)]
pub enum PendingApply {
    /// Write all fields to the current song.
    Song,
    /// Write the album-level fields to every album track.
    AlbumBasic,
    /// Write the matched per-track tags of an album source.
    AlbumFull,
}

/// Where an online search stands.
pub enum SearchStatus {
    Searching,
    Results,
    Empty,
    /// An apply is being written.
    Embedding,
    Error(String),
}

/// A move within a list.
#[derive(Clone, Copy, PartialEq, Eq, Debug, Structural)]
pub enum ListStep {
    /// Up one row, wrapping to the bottom.
    Up,
    /// Down one row, wrapping to the top.
    Down,
    Top,
    Bottom,
    Stay,
}

/// The Auto Tag tab: an online tag search for one song, or (album mode) for
/// its whole album against matched album sources. The candidates, album
/// sources and local album tracks themselves are held by the caller in the
/// same order; this state counts them and keeps the selections.
pub struct TagSearch {
    /// The key of the request in flight; results under another key are
    /// stale.
    pub key: String,
    /// The query, the query it was seeded with, and the caret in it.
    pub query: String,
    pub seeded: String,
    pub qcaret: usize,
    /// The query is being edited.
    pub editing: bool,
    pub status: SearchStatus,
    /// Found candidates, and the selected one.
    pub candidates: usize,
    pub sel: usize,
    /// Album mode, the matched album sources and the selected one, and the
    /// local album tracks and the selected one.
    pub album_mode: bool,
    pub albums: usize,
    pub album_sel: usize,
    pub album_tracks: usize,
    pub track_sel: usize,
    /// An apply awaiting confirmation.
    pub pending: Option<PendingApply>,
}

/// What Enter in the Auto Tag popup leads to.
#[derive(Clone, Copy, PartialEq, Eq, Debug, Structural)]
pub enum TagActivate {
    /// The query was edited: search again.
    Search,
    /// An apply was staged for confirmation (or nothing to apply).
    Staged,
}

/// The Cover tab's sub-modes that Esc backs out of.
pub struct CoverModes {
    /// A cover write awaits confirmation.
    pub confirm: bool,
    /// The query is being edited.
    pub editing: bool,
}

/// The Tag Edit modal: its active tab (0 Edit, 1 Auto Tag, 2 Cover) and
/// each tab's popup, present once opened.
pub struct TagModal {
    pub tab: u8,
    pub edit: Option<TagEdit>,
    pub search: Option<TagSearch>,
    pub cover: Option<CoverModes>,
}

/// A tab whose content opens the first time the tab is visited.
#[derive(Clone, Copy, PartialEq, Eq, Debug, Structural)]
pub enum TabOpen {
    /// Open the manual editor on the selection.
    Edit,
    /// Start the online tag search.
    Search,
    /// Start the album-art search.
    Cover,
}

/// What a finished save shows, and what else it asks of the caller.
pub struct SaveOutcome {
    /// The notification text.
    pub text: String,
    /// Show it for longer than usual (a write error the user should read).
    pub long: bool,
    /// The modal closed.
    pub closed: bool,
}

/// An ASCII decimal digit.
pub open spec fn is_digit(c: char) -> bool {
    '0' <= c && c <= '9'
}

/// The digits of `s`, in order.
pub open spec fn digits_only(s: Seq<char>) -> Seq<char>
    decreases s.len(),
{
    if s.len() == 0 {
        Seq::empty()
    } else if is_digit(s.last()) {
        digits_only(s.drop_last()).push(s.last())
    } else {
        digits_only(s.drop_last())
    }
}

/// The digits of `s`, in order.
pub fn keep_digits(s: &str) -> (r: String)
    ensures
        r@ == digits_only(s@),
{
    let cs = chars_of(s);
    let mut out: Vec<char> = Vec::new();
    let mut i: usize = 0;
    while i < cs.len()
        invariant
            i <= cs@.len(),
            cs@ == s@,
            out@ == digits_only(s@.take(i as int)),
        decreases cs.len() - i,
    {
        let c = cs[i];
        assert(s@.take(i as int + 1).drop_last() == s@.take(i as int));
        if '0' <= c && c <= '9' {
            out.push(c);
        }
        i += 1;
    }
    assert(s@.take(cs@.len() as int) == s@);
    string_of(out.as_slice())
}

/// Whether field `i` differs in some draft from the first draft.
pub open spec fn differs(drafts: Seq<Vec<String>>, i: int) -> bool {
    exists|k: int| 0 <= k < drafts.len() && #[trigger] drafts[k]@[i]@ != drafts[0]@[i]@
}

/// Some field was touched.
pub open spec fn any_touched(t: Seq<bool>) -> bool {
    exists|i: int| 0 <= i < t.len() && t[i]
}

/// The field the caret motion `c` leaves the caret at, in a field of `len`
/// characters.
pub open spec fn caret_after(caret: int, len: int, c: Caret) -> int {
    match c {
        Caret::Left => if caret == 0 { 0 } else { caret - 1 },
        Caret::Right => if caret + 1 < len { caret + 1 } else { len },
        Caret::Home => 0,
        Caret::End => len,
    }
}

/// The field a move from `cursor` lands on, among `n` fields.
pub open spec fn field_after(cursor: int, n: int, step: FieldStep) -> int {
    match step {
        FieldStep::Prev => (cursor + n - 1) % n,
        FieldStep::Next => (cursor + 1) % n,
        FieldStep::Stay => cursor,
    }
}

/// The modal's tab after stepping `dir` tabs from `cur`, wrapping over the
/// three tabs.
pub open spec fn tab_after(cur: int, dir: int) -> int {
    (cur + dir) % 3
}

/// The text of a case transform: 1 UPPER, 2 lower, anything else Title.
pub open spec fn cased(s: Seq<char>, mode: u8) -> Seq<char> {
    if mode == 1 {
        upper_str(s)
    } else if mode == 2 {
        lower_str(s)
    } else {
        title_upto(s, s.len())
    }
}

/// What `TagEdit::move_field` does: `n` is `o` after it.
pub open spec fn move_field_post(o: TagEdit, n: TagEdit, step: FieldStep) -> bool {
    &&& n.cursor == field_after(
        o.cursor as int,
        o.draft.len() as int,
        step,
    )
    &&& n.caret == n.focused().len()
    &&& n.draft@ == o.draft@
    &&& n.keep@ == o.keep@
    &&& n.touched@ == o.touched@
    &&& n.editing == o.editing
}

/// What `TagEdit::begin_edit` does: `n` is `o` after it.
pub open spec fn begin_edit_post(o: TagEdit, n: TagEdit) -> bool {
    &&& n.editing
    &&& n.caret == o.focused().len()
    &&& n.draft@ == o.draft@
    &&& n.cursor == o.cursor
    &&& n.touched@ == o.touched@
}

/// What `TagEdit::stop_edit` does: `n` is `o` after it.
pub open spec fn stop_edit_post(o: TagEdit, n: TagEdit) -> bool {
    &&& !n.editing
    &&& n.draft@ == o.draft@
    &&& n.cursor == o.cursor
    &&& n.caret == o.caret
}

/// What `TagEdit::move_caret` does: `n` is `o` after it.
pub open spec fn move_caret_post(o: TagEdit, n: TagEdit, c: Caret) -> bool {
    &&& n.caret == caret_after(
        o.caret as int,
        o.focused().len() as int,
        c,
    )
    &&& n.draft@ == o.draft@
    &&& n.cursor == o.cursor
}

/// What `TagEdit::insert` does: `n` is `o` after it.
pub open spec fn insert_post(o: TagEdit, n: TagEdit, c: char, numeric: bool) -> bool {
    &&& numeric && !is_digit(c) ==> n == o
    &&& !(numeric && !is_digit(c)) ==> {
        let at = if o.caret <= o.focused().len() {
            o.caret as int
        } else {
            o.focused().len() as int
        };
        &&& o.focus_set(n, o.focused().insert(at, c))
        &&& n.caret == at + 1
    }
}

/// What `TagEdit::delete` does: `n` is `o` after it.
pub open spec fn delete_post(o: TagEdit, n: TagEdit, forward: bool) -> bool {
    &&& ({
        let len = o.focused().len() as int;
        let at = if o.caret <= len {
            o.caret as int
        } else {
            len
        };
        let none = if forward {
            at >= len
        } else {
            at == 0
        };
        let idx = if forward {
            at
        } else {
            at - 1
        };
        &&& none ==> n == o
        &&& !none ==> o.focus_set(n, o.focused().remove(idx))
            && n.caret == idx
    })
}

/// What `TagEdit::set_field` does: `n` is `o` after it.
pub open spec fn set_field_post(o: TagEdit, n: TagEdit, s: String, numeric: bool) -> bool {
    &&& o.focus_set(
        n,
        if numeric {
            digits_only(s@)
        } else {
            s@
        },
    )
    &&& n.caret == n.focused().len()
}

/// What `TagEdit::clear` does: `n` is `o` after it.
pub open spec fn clear_post(o: TagEdit, n: TagEdit) -> bool {
    &&& o.focus_set(n, Seq::<char>::empty())
    &&& n.caret == o.caret
}

/// What `TagEdit::set_case` does: `n` is `o` after it.
pub open spec fn set_case_post(o: TagEdit, n: TagEdit, mode: u8, numeric: bool) -> bool {
    &&& numeric ==> n == o
    &&& !numeric ==> o.focus_set(n, cased(o.focused(), mode))
}

/// What `TagEdit::convert_begin` does: `n` is `o` after it.
pub open spec fn convert_begin_post(o: TagEdit, n: TagEdit, to_filename: bool) -> bool {
    &&& n.convert matches Some((d, p)) && d == to_filename && p@ == if to_filename {
        "#. T"@
    } else {
        "%artist% - %title%"@
    }
    &&& n.draft@ == o.draft@
    &&& n.replace == o.replace
}

/// What `TagEdit::convert_type` does: `n` is `o` after it.
pub open spec fn convert_type_post(o: TagEdit, n: TagEdit, s: String) -> bool {
    &&& n.convert matches Some((d, p)) && p@ == s@ && d == match o.convert {
        Some((d0, _)) => d0,
        None => false,
    }
    &&& n.draft@ == o.draft@
}

/// What `TagEdit::convert_cancel` does: `n` is `o` after it.
pub open spec fn convert_cancel_post(o: TagEdit, n: TagEdit) -> bool {
    &&& n.convert is None
    &&& n.draft@ == o.draft@
}

/// What `TagEdit::replace_begin` does: `n` is `o` after it.
pub open spec fn replace_begin_post(o: TagEdit, n: TagEdit) -> bool {
    &&& n.replace matches Some((f, r, on)) && f@.len() == 0 && r@.len() == 0 && !on
    &&& n.draft@ == o.draft@
}

/// What `TagEdit::replace_type` does: `n` is `o` after it.
pub open spec fn replace_type_post(o: TagEdit, n: TagEdit, s: String) -> bool {
    &&& match o.replace {
        None => n.replace is None,
        Some((f, r, on)) => n.replace matches Some((f2, r2, on2)) && on2 == on
            && if on {
            f2@ == f@ && r2@ == s@
        } else {
            f2@ == s@ && r2@ == r@
        },
    }
    &&& n.draft@ == o.draft@
}

/// What `TagEdit::replace_toggle` does: `n` is `o` after it.
pub open spec fn replace_toggle_post(o: TagEdit, n: TagEdit) -> bool {
    &&& match o.replace {
        None => n.replace is None,
        Some((f, r, on)) => n.replace matches Some((f2, r2, on2)) && f2@ == f@
            && r2@ == r@ && on2 == !on,
    }
    &&& n.draft@ == o.draft@
}

/// What `TagEdit::replace_cancel` does: `n` is `o` after it.
pub open spec fn replace_cancel_post(o: TagEdit, n: TagEdit) -> bool {
    &&& n.replace is None
    &&& n.draft@ == o.draft@
}

/// What `TagEdit::album_cancel` does: `n` is `o` after it.
pub open spec fn album_cancel_post(o: TagEdit, n: TagEdit) -> bool {
    &&& !n.confirm_album
    &&& n.draft@ == o.draft@
    &&& n.touched@ == o.touched@
}

impl TagEdit {
    /// The per-field vectors agree in length and the focus is on a field.
    pub open spec fn wf(&self) -> bool {
        &&& self.draft.len() > 0
        &&& self.keep.len() == self.draft.len()
        &&& self.touched.len() == self.draft.len()
        &&& self.cursor < self.draft.len()
    }

    /// The draft value of field `i`.
    pub open spec fn field(&self, i: int) -> Seq<char> {
        self.draft@[i]@
    }

    /// The draft value of the focused field.
    pub open spec fn focused(&self) -> Seq<char> {
        self.draft@[self.cursor as int]@
    }

    /// `new` differs from `self` at most in the focused field's value, keep
    /// and touched flags, and the caret.
    pub open spec fn same_but_focus(&self, new: TagEdit) -> bool {
        &&& new.draft.len() == self.draft.len()
        &&& new.keep.len() == self.keep.len()
        &&& new.touched.len() == self.touched.len()
        &&& new.cursor == self.cursor
        &&& new.targets@ == self.targets@
        &&& new.convert == self.convert
        &&& new.replace == self.replace
        &&& new.editing == self.editing
        &&& new.confirm_album == self.confirm_album
        &&& forall|i: int|
            0 <= i < self.draft.len() && i != self.cursor ==> {
                &&& #[trigger] new.draft@[i] == self.draft@[i]
                &&& new.keep@[i] == self.keep@[i]
                &&& new.touched@[i] == self.touched@[i]
            }
    }

    /// `new` is `self` with the focused field set to `v`, committed (no
    /// longer `<keep>`) and marked to be written.
    pub open spec fn focus_set(&self, new: TagEdit, v: Seq<char>) -> bool {
        &&& self.same_but_focus(new)
        &&& new.focused() == v
        &&& !new.keep@[self.cursor as int]
        &&& new.touched@[self.cursor as int]
    }

    /// Opens an editor on `targets`, whose current tags are `drafts` (one
    /// per track that has them, in order; every draft has the same fields).
    /// A field that differs across the drafts becomes `<keep>` and starts
    /// empty; the others start at the shared value. No drafts: nothing to
    /// edit.
    #[verifier::spinoff_prover]
    pub fn from_drafts(targets: Vec<u64>, drafts: &Vec<Vec<String>>) -> (r: Option<TagEdit>)
        requires
            drafts.len() > 0 ==> drafts[0].len() > 0,
            forall|k: int| 0 <= k < drafts.len() ==> #[trigger] drafts[k].len() == drafts[0].len(),
        ensures
            r is None <==> drafts.len() == 0,
            r matches Some(te) ==> {
                &&& te.wf()
                &&& te.targets@ == targets@
                &&& te.draft.len() == drafts[0].len()
                &&& forall|i: int|
                    0 <= i < te.draft.len() ==> {
                        &&& #[trigger] te.keep@[i] == differs(drafts@, i)
                        &&& te.field(i) == if differs(drafts@, i) {
                            Seq::<char>::empty()
                        } else {
                            drafts[0]@[i]@
                        }
                        &&& !te.touched@[i]
                    }
                &&& te.cursor == 0
                &&& te.caret == 0
                &&& te.convert is None
                &&& te.replace is None
                &&& !te.editing
                &&& !te.confirm_album
            },
    {
        if drafts.len() == 0 {
            return None;
        }
        let n = drafts[0].len();
        let mut draft: Vec<String> = Vec::new();
        let mut keep: Vec<bool> = Vec::new();
        let mut touched: Vec<bool> = Vec::new();
        let mut i: usize = 0;
        while i < n
            invariant
                n == drafts[0].len(),
                drafts.len() > 0,
                forall|k: int| 0 <= k < drafts.len() ==> #[trigger] drafts[k].len() == n,
                i <= n,
                draft.len() == i,
                keep.len() == i,
                touched.len() == i,
                forall|j: int|
                    0 <= j < i ==> {
                        &&& #[trigger] keep@[j] == differs(drafts@, j)
                        &&& draft@[j]@ == if differs(drafts@, j) {
                            Seq::<char>::empty()
                        } else {
                            drafts[0]@[j]@
                        }
                        &&& !touched@[j]
                    },
            decreases n - i,
        {
            let first = drafts[0][i].as_str();
            let mut mixed = false;
            let mut k: usize = 1;
            while k < drafts.len()
                invariant
                    1 <= k <= drafts.len(),
                    i < n,
                    forall|m: int| 0 <= m < drafts.len() ==> #[trigger] drafts[m].len() == n,
                    first@ == drafts[0]@[i as int]@,
                    mixed == exists|m: int|
                        0 <= m < k && #[trigger] drafts[m]@[i as int]@ != drafts[0]@[i as int]@,
                decreases drafts.len() - k,
            {
                assert(drafts[k as int].len() == n);
                if !str_eq(drafts[k][i].as_str(), first) {
                    mixed = true;
                }
                k += 1;
            }
            proof {
                if differs(drafts@, i as int) {
                    let m = choose|m: int|
                        0 <= m < drafts.len() && #[trigger] drafts[m]@[i as int]@
                            != drafts[0]@[i as int]@;
                    assert(m != 0);
                }
            }
            assert(mixed == differs(drafts@, i as int));
            if mixed {
                draft.push(String::new());
            } else {
                draft.push(string_from(first));
            }
            keep.push(mixed);
            touched.push(false);
            i += 1;
        }
        Some(
            TagEdit {
                targets,
                draft,
                keep,
                touched,
                cursor: 0,
                caret: 0,
                convert: None,
                replace: None,
                editing: false,
                confirm_album: false,
            },
        )
    }

    /// The number of characters in the focused field.
    fn focused_len(&self) -> (n: usize)
        requires
            self.wf(),
        ensures
            n == self.focused().len(),
    {
        self.draft[self.cursor].as_str().unicode_len()
    }

    /// Sets the focused field to `v`, committing it and marking it written.
    fn put_focused(&mut self, v: String)
        requires
            old(self).wf(),
        ensures
            final(self).wf(),
            old(self).focus_set(*final(self), v@),
            final(self).caret == old(self).caret,
    {
        let c = self.cursor;
        self.draft.set(c, v);
        self.keep.set(c, false);
        self.touched.set(c, true);
    }

    /// Moves the focus by `step`, wrapping, and puts the caret at the end of
    /// the newly focused field.
    pub fn move_field(&mut self, step: FieldStep)
        requires
            old(self).wf(),
        ensures
            final(self).wf(),
            move_field_post(*old(self), *final(self), step),
    {
        let n = self.draft.len();
        let c = self.cursor;
        proof {
            let (ci, ni) = (c as int, n as int);
            assert(ci > 0 ==> (ci + ni - 1) % ni == ci - 1) by (nonlinear_arith)
                requires
                    0 <= ci < ni,
            ;
            assert(ci == 0 ==> (ci + ni - 1) % ni == ni - 1) by (nonlinear_arith)
                requires
                    0 <= ci < ni,
            ;
            assert((ci + 1) % ni == if ci + 1 < ni { ci + 1 } else { 0 }) by (nonlinear_arith)
                requires
                    0 <= ci < ni,
            ;
        }
        self.cursor = match step {
            FieldStep::Prev => if c == 0 {
                n - 1
            } else {
                c - 1
            },
            FieldStep::Next => if c + 1 < n {
                c + 1
            } else {
                0
            },
            FieldStep::Stay => c,
        };
        self.caret = self.focused_len();
    }

    /// Starts typing into the focused field, with the caret at its end.
    pub fn begin_edit(&mut self)
        requires
            old(self).wf(),
        ensures
            final(self).wf(),
            begin_edit_post(*old(self), *final(self)),
    {
        self.editing = true;
        self.caret = self.focused_len();
    }

    /// Returns to browsing the fields.
    pub fn stop_edit(&mut self)
        ensures
            final(self).wf() == old(self).wf(),
            stop_edit_post(*old(self), *final(self)),
    {
        self.editing = false;
    }

    /// Moves the caret within the focused field.
    pub fn move_caret(&mut self, c: Caret)
        requires
            old(self).wf(),
        ensures
            final(self).wf(),
            move_caret_post(*old(self), *final(self), c),
    {
        let len = self.focused_len();
        self.caret = match c {
            Caret::Left => if self.caret == 0 {
                0
            } else {
                self.caret - 1
            },
            Caret::Right => if self.caret < len && self.caret + 1 < len {
                self.caret + 1
            } else {
                len
            },
            Caret::Home => 0,
            Caret::End => len,
        };
    }

    /// Inserts `c` at the caret (clamped to the field's end) and moves the
    /// caret past it. A numeric field takes digits only: any other
    /// character changes nothing.
    pub fn insert(&mut self, c: char, numeric: bool)
        requires
            old(self).wf(),
            old(self).focused().len() < usize::MAX,
        ensures
            final(self).wf(),
            insert_post(*old(self), *final(self), c, numeric),
    {
        if numeric && !('0' <= c && c <= '9') {
            return;
        }
        let mut chars = chars_of(self.draft[self.cursor].as_str());
        let at = if self.caret <= chars.len() {
            self.caret
        } else {
            chars.len()
        };
        chars.insert(at, c);
        let v = string_of(chars.as_slice());
        self.put_focused(v);
        self.caret = at + 1;
    }

    /// Deletes the character before the caret, or at it when `forward`; at
    /// the field's start (end, forward) nothing changes.
    pub fn delete(&mut self, forward: bool)
        requires
            old(self).wf(),
        ensures
            final(self).wf(),
            delete_post(*old(self), *final(self), forward),
    {
        let mut chars = chars_of(self.draft[self.cursor].as_str());
        let at = if self.caret <= chars.len() {
            self.caret
        } else {
            chars.len()
        };
        let idx = if forward {
            if at >= chars.len() {
                return;
            }
            at
        } else {
            if at == 0 {
                return;
            }
            at - 1
        };
        chars.remove(idx);
        let v = string_of(chars.as_slice());
        self.put_focused(v);
        self.caret = idx;
    }

    /// Replaces the focused field with `s` (its digits only, for a numeric
    /// field) and puts the caret at its end.
    pub fn set_field(&mut self, s: String, numeric: bool)
        requires
            old(self).wf(),
        ensures
            final(self).wf(),
            set_field_post(*old(self), *final(self), s, numeric),
    {
        let v = if numeric {
            keep_digits(s.as_str())
        } else {
            s
        };
        self.put_focused(v);
        self.caret = self.focused_len();
    }

    /// Empties the focused field and marks it written, so a `<keep>` field
    /// can be emptied across the whole selection.
    pub fn clear(&mut self)
        requires
            old(self).wf(),
        ensures
            final(self).wf(),
            clear_post(*old(self), *final(self)),
    {
        self.put_focused(String::new());
    }

    /// Case-transforms the focused text field: 1 UPPER, 2 lower, anything
    /// else Title Case. A numeric field is left alone.
    pub fn set_case(&mut self, mode: u8, numeric: bool)
        requires
            old(self).wf(),
        ensures
            final(self).wf(),
            set_case_post(*old(self), *final(self), mode, numeric),
    {
        if numeric {
            return;
        }
        let v = {
            let cur = self.draft[self.cursor].as_str();
            if mode == 1 {
                to_upper_str(cur)
            } else if mode == 2 {
                to_lower_str(cur)
            } else {
                title_case(cur)
            }
        };
        self.put_focused(v);
    }

    /// Opens the converter prompt: renaming files from the tags
    /// (`to_filename`, pattern `#. T`) or parsing tags from the filename
    /// (pattern `%artist% - %title%`).
    pub fn convert_begin(&mut self, to_filename: bool)
        ensures
            final(self).wf() == old(self).wf(),
            convert_begin_post(*old(self), *final(self), to_filename),
    {
        let p = if to_filename {
            string_from("#. T")
        } else {
            string_from("%artist% - %title%")
        };
        self.convert = Some((to_filename, p));
    }

    /// Sets the converter pattern, keeping its direction (parsing from the
    /// filename when no prompt was open).
    pub fn convert_type(&mut self, s: String)
        ensures
            final(self).wf() == old(self).wf(),
            convert_type_post(*old(self), *final(self), s),
    {
        let dir = match &self.convert {
            Some((d, _)) => *d,
            None => false,
        };
        self.convert = Some((dir, s));
    }

    /// Closes the converter prompt.
    pub fn convert_cancel(&mut self)
        ensures
            final(self).wf() == old(self).wf(),
            convert_cancel_post(*old(self), *final(self)),
    {
        self.convert = None;
    }

    /// Opens an empty find-and-replace prompt, typing into the find box.
    pub fn replace_begin(&mut self)
        ensures
            final(self).wf() == old(self).wf(),
            replace_begin_post(*old(self), *final(self)),
    {
        self.replace = Some((String::new(), String::new(), false));
    }

    /// Sets the active box of the find-and-replace prompt to `s`; without a
    /// prompt nothing changes.
    pub fn replace_type(&mut self, s: String)
        ensures
            final(self).wf() == old(self).wf(),
            replace_type_post(*old(self), *final(self), s),
    {
        let mut cur: Option<(String, String, bool)> = None;
        std::mem::swap(&mut cur, &mut self.replace);
        self.replace = match cur {
            None => None,
            Some((f, r, on)) => if on {
                Some((f, s, on))
            } else {
                Some((s, r, on))
            },
        };
    }

    /// Switches typing between the find and the replacement box.
    pub fn replace_toggle(&mut self)
        ensures
            final(self).wf() == old(self).wf(),
            replace_toggle_post(*old(self), *final(self)),
    {
        let mut cur: Option<(String, String, bool)> = None;
        std::mem::swap(&mut cur, &mut self.replace);
        self.replace = match cur {
            None => None,
            Some((f, r, on)) => Some((f, r, !on)),
        };
    }

    /// Closes the find-and-replace prompt.
    pub fn replace_cancel(&mut self)
        ensures
            final(self).wf() == old(self).wf(),
            replace_cancel_post(*old(self), *final(self)),
    {
        self.replace = None;
    }

    /// Arms the apply-to-album confirmation when some field was changed;
    /// otherwise nothing is armed and the caller says there is nothing to
    /// save.
    pub fn album_prompt(&mut self) -> (armed: bool)
        ensures
            final(self).wf() == old(self).wf(),
            armed == any_touched(old(self).touched@),
            final(self).confirm_album == (old(self).confirm_album || armed),
            final(self).draft@ == old(self).draft@,
            final(self).touched@ == old(self).touched@,
    {
        let mut i: usize = 0;
        let mut any = false;
        while i < self.touched.len()
            invariant
                i <= self.touched.len(),
                any == exists|j: int| 0 <= j < i && self.touched@[j],
            decreases self.touched.len() - i,
        {
            if self.touched[i] {
                any = true;
            }
            i += 1;
        }
        if any {
            self.confirm_album = true;
        }
        any
    }

    /// Cancels the apply-to-album confirmation.
    pub fn album_cancel(&mut self)
        ensures
            final(self).wf() == old(self).wf(),
            album_cancel_post(*old(self), *final(self)),
    {
        self.confirm_album = false;
    }

    /// Starts a save: the album confirmation is consumed, and the fields to
    /// write are exactly the touched ones. With none touched there is nothing
    /// to save (`None`) and the editor stays as it is.
    pub fn begin_save(&mut self) -> (dirty: Option<Vec<bool>>)
        ensures
            !final(self).confirm_album,
            final(self).draft@ == old(self).draft@,
            final(self).touched@ == old(self).touched@,
            final(self).targets@ == old(self).targets@,
            final(self).cursor == old(self).cursor,
            dirty is None <==> !any_touched(old(self).touched@),
            dirty matches Some(d) ==> d@ == old(self).touched@,
    {
        self.confirm_album = false;
        let mut d: Vec<bool> = Vec::new();
        let mut any = false;
        let mut i: usize = 0;
        while i < self.touched.len()
            invariant
                i <= self.touched.len(),
                d@ == self.touched@.take(i as int),
                any == exists|j: int| 0 <= j < i && self.touched@[j],
            decreases self.touched.len() - i,
        {
            let t = self.touched[i];
            d.push(t);
            if t {
                any = true;
            }
            assert(self.touched@.take(i as int + 1) == self.touched@.take(i as int).push(t));
            i += 1;
        }
        assert(self.touched@.take(self.touched.len() as int) == self.touched@);
        if any {
            Some(d)
        } else {
            None
        }
    }
}

/// The notice after a save that wrote `ok` tracks, `err` being the last
/// write error: the error when nothing was written, else the count.
pub open spec fn save_notice(ok: nat, err: Option<Seq<char>>) -> Seq<char> {
    if ok == 0 {
        "Write failed: "@ + match err {
            Some(e) => e,
            None => "unknown"@,
        }
    } else {
        match err {
            Some(e) => "Saved "@ + decimal(ok) + ", some failed: "@ + e,
            None => if ok == 1 {
                "Tags saved"@
            } else {
                "Tags saved to "@ + decimal(ok) + " tracks"@
            },
        }
    }
}

impl TagModal {
    /// The modal is open: some tab has content.
    pub open spec fn shown(&self) -> bool {
        self.edit is Some || self.search is Some || self.cover is Some
    }

    /// A closed modal on the Edit tab.
    pub fn new() -> (m: TagModal)
        ensures
            m.tab == 0,
            m.edit is None,
            m.search is None,
            m.cover is None,
    {
        TagModal { tab: 0, edit: None, search: None, cover: None }
    }

    /// Whether the modal is open (any of its tabs has content).
    pub fn tags_open(&self) -> (b: bool)
        ensures
            b == self.shown(),
    {
        self.edit.is_some() || self.search.is_some() || self.cover.is_some()
    }

    /// Closes the whole modal, back on the Edit tab.
    pub fn close_tags(&mut self)
        ensures
            final(self).tab == 0,
            final(self).edit is None,
            final(self).search is None,
            final(self).cover is None,
    {
        self.edit = None;
        self.search = None;
        self.cover = None;
        self.tab = 0;
    }

    /// Switches to tab `tab` (at most the last), when the modal is open. The
    /// result names the tab's content to open when it has none yet.
    pub fn tags_tab_to(&mut self, tab: u8) -> (open: Option<TabOpen>)
        ensures
            !old(self).shown() ==> final(self).tab == old(self).tab && open is None,
            old(self).shown() ==> {
                let t = if tab < 2 {
                    tab
                } else {
                    2u8
                };
                &&& final(self).tab == t
                &&& open == if t == 0 && old(self).edit is None {
                    Some(TabOpen::Edit)
                } else if t == 1 && old(self).search is None {
                    Some(TabOpen::Search)
                } else if t == 2 && old(self).cover is None {
                    Some(TabOpen::Cover)
                } else {
                    None
                }
            },
            final(self).edit == old(self).edit,
            final(self).search == old(self).search,
            final(self).cover == old(self).cover,
    {
        if !self.tags_open() {
            return None;
        }
        self.tab = if tab < 2 {
            tab
        } else {
            2
        };
        if self.tab == 0 && self.edit.is_none() {
            Some(TabOpen::Edit)
        } else if self.tab == 1 && self.search.is_none() {
            Some(TabOpen::Search)
        } else if self.tab == 2 && self.cover.is_none() {
            Some(TabOpen::Cover)
        } else {
            None
        }
    }

    /// Steps `dir` tabs (Tab: 1, Shift-Tab: -1), wrapping over Edit, Auto
    /// Tag and Cover, when the modal is open; see `tags_tab_to`.
    pub fn tags_tab_step(&mut self, dir: i32) -> (open: Option<TabOpen>)
        requires
            old(self).tab <= 2,
        ensures
            tags_tab_step_post(*old(self), *final(self), dir, open),
    {
        if !self.tags_open() {
            return None;
        }
        let cur: u32 = self.tab as u32;
        let k: u32 = if dir >= 0 {
            (dir as u32) % 3
        } else {
            let a: u64 = ((0i64 - dir as i64) as u64) % 3;
            ((3 - a) % 3) as u32
        };
        let t: u32 = (cur + k) % 3;
        proof {
            let c = cur as int;
            let d = dir as int;
            if d >= 0 {
                assert((c + d % 3) % 3 == (c + d) % 3) by (nonlinear_arith)
                    requires
                        d >= 0,
                        c >= 0,
                ;
            } else {
                let a = (-d) % 3;
                assert((c + (3 - a) % 3) % 3 == (c + d) % 3) by (nonlinear_arith)
                    requires
                        d < 0,
                        c >= 0,
                        a == (-d) % 3,
                ;
            }
        }
        self.tags_tab_to(t as u8)
    }

    /// Ends a save that wrote `ok` tracks, `last_err` being the last write
    /// error. When nothing was written the editor stays open with its edits
    /// and the error shows for longer; otherwise the whole modal closes.
    pub fn finish_save(&mut self, ok: u64, last_err: Option<String>) -> (out: SaveOutcome)
        ensures
            out.text@ == save_notice(
                ok as nat,
                match last_err {
                    Some(e) => Some(e@),
                    None => None,
                },
            ),
            out.long == (ok == 0),
            out.closed == (ok != 0),
            ok == 0 ==> final(self).edit == old(self).edit && final(self).tab == old(self).tab
                && final(self).search == old(self).search && final(self).cover == old(
                self,
            ).cover,
            ok != 0 ==> final(self).tab == 0 && final(self).edit is None && final(self).search is None
                && final(self).cover is None,
    {
        let mut text = String::new();
        if ok == 0 {
            push_str(&mut text, "Write failed: ");
            match &last_err {
                Some(e) => push_str(&mut text, e.as_str()),
                None => push_str(&mut text, "unknown"),
            }
            return SaveOutcome { text, long: true, closed: false };
        }
        match &last_err {
            Some(e) => {
                push_str(&mut text, "Saved ");
                push_decimal(&mut text, ok);
                push_str(&mut text, ", some failed: ");
                push_str(&mut text, e.as_str());
            },
            None => {
                if ok == 1 {
                    push_str(&mut text, "Tags saved");
                } else {
                    push_str(&mut text, "Tags saved to ");
                    push_decimal(&mut text, ok);
                    push_str(&mut text, " tracks");
                }
            },
        }
        self.close_tags();
        SaveOutcome { text, long: false, closed: true }
    }
}

/// The row a list step lands on from `i`, among `n` rows (`n > 0`).
pub open spec fn row_after(i: int, n: int, m: ListStep) -> int {
    match m {
        ListStep::Up => (i + n - 1) % n,
        ListStep::Down => (i + 1) % n,
        ListStep::Top => 0,
        ListStep::Bottom => n - 1,
        ListStep::Stay => i,
    }
}

/// Steps a row within `n` rows.
fn step_row(i: usize, n: usize, m: ListStep) -> (r: usize)
    requires
        i < n,
    ensures
        r == row_after(i as int, n as int, m),
        r < n,
{
    proof {
        let (ii, ni) = (i as int, n as int);
        assert(ii > 0 ==> (ii + ni - 1) % ni == ii - 1) by (nonlinear_arith)
            requires
                0 <= ii < ni,
        ;
        assert(ii == 0 ==> (ii + ni - 1) % ni == ni - 1) by (nonlinear_arith)
            requires
                0 <= ii < ni,
        ;
        assert((ii + 1) % ni == if ii + 1 < ni { ii + 1 } else { 0 }) by (nonlinear_arith)
            requires
                0 <= ii < ni,
        ;
    }
    match m {
        ListStep::Up => if i == 0 {
            n - 1
        } else {
            i - 1
        },
        ListStep::Down => if i + 1 < n {
            i + 1
        } else {
            0
        },
        ListStep::Top => 0,
        ListStep::Bottom => n - 1,
        ListStep::Stay => i,
    }
}

/// `count` candidates found under the request key `k`: `n` is `o` after
/// them (a stale key changes nothing).
pub open spec fn found_post(o: TagSearch, n: TagSearch, k: Seq<char>, count: usize) -> bool {
    &&& k == o.key@ ==> n == TagSearch {
        candidates: count,
        sel: 0,
        status: if count == 0 {
            SearchStatus::Empty
        } else {
            SearchStatus::Results
        },
        ..o
    }
    &&& k != o.key@ ==> n == o
}

/// `count` album sources found under the request key `k`: `n` is `o`
/// after them (a stale key changes nothing).
pub open spec fn album_found_post(o: TagSearch, n: TagSearch, k: Seq<char>, count: usize) -> bool {
    &&& k == o.key@ ==> n == TagSearch {
        albums: count,
        album_sel: 0,
        track_sel: 0,
        status: if count == 0 {
            SearchStatus::Empty
        } else {
            SearchStatus::Results
        },
        ..o
    }
    &&& k != o.key@ ==> n == o
}

/// The request `k` failed with `msg`: `n` is `o` after it (a stale key
/// changes nothing).
pub open spec fn search_error_post(o: TagSearch, n: TagSearch, k: Seq<char>, msg: Seq<char>) -> bool {
    &&& k == o.key@ ==> (n.status matches SearchStatus::Error(m) && m@ == msg) && n.candidates
        == o.candidates && n.sel == o.sel && n.albums == o.albums && n.pending == o.pending
    &&& k != o.key@ ==> n == o
}

impl TagSearch {
    /// The selections stay inside their lists (or at zero on an empty one).
    pub open spec fn wf(&self) -> bool {
        &&& (self.sel < self.candidates || self.sel == 0)
        &&& (self.album_sel < self.albums || self.album_sel == 0)
        &&& (self.track_sel < self.album_tracks || self.track_sel == 0)
    }

    /// Moves the selection while browsing: the album's local tracks in album
    /// mode, otherwise the candidates. Editing the query, or an empty list,
    /// moves nothing.
    pub fn tag_move(&mut self, m: ListStep)
        requires
            old(self).wf(),
        ensures
            final(self).wf(),
            tag_move_post(*old(self), *final(self), m),
    {
        if self.editing {
            return;
        }
        if self.album_mode {
            if self.album_tracks > 0 {
                self.track_sel = step_row(self.track_sel, self.album_tracks, m);
            }
        } else if self.candidates > 0 {
            self.sel = step_row(self.sel, self.candidates, m);
        }
    }

    /// Left/right in album mode cycles the album source by `dir`, wrapping,
    /// and goes back to its first track.
    pub fn tag_source(&mut self, dir: i32)
        requires
            old(self).wf(),
        ensures
            final(self).wf(),
            tag_source_post(*old(self), *final(self), dir),
    {
        if !(self.album_mode && self.albums > 0) {
            return;
        }
        let n: u128 = self.albums as u128;
        let cur: u128 = self.album_sel as u128;
        let k: u128 = if dir >= 0 {
            (dir as u128) % n
        } else {
            let a: u128 = ((0i64 - dir as i64) as u128) % n;
            (n - a) % n
        };
        let t: u128 = (cur + k) % n;
        proof {
            let (c, d, ni) = (cur as int, dir as int, n as int);
            if d >= 0 {
                vstd::arithmetic::div_mod::lemma_add_mod_noop_right(c, d, ni);
            } else {
                let a = (-d) % ni;
                let q = (-d) / ni;
                vstd::arithmetic::div_mod::lemma_add_mod_noop_right(c, ni - a, ni);
                vstd::arithmetic::div_mod::lemma_mod_add_multiples_vanish(c - a, ni);
                vstd::arithmetic::div_mod::lemma_fundamental_div_mod(-d, ni);
                vstd::arithmetic::div_mod::lemma_mod_multiples_vanish(q, c + d, ni);
                assert(ni * q + (c + d) == c - a);
            }
        }
        self.album_sel = t as usize;
        self.track_sel = 0;
    }

    /// Typing into the query: editing, with the caret at its end.
    pub fn tag_input(&mut self, s: String)
        ensures
            tag_input_post(*old(self), *final(self), s),
    {
        self.editing = true;
        self.qcaret = s.as_str().unicode_len();
        self.query = s;
    }

    /// Stages an apply for confirmation, when it has a target: a selected
    /// candidate for a song or album-basic apply, a selected album source
    /// for an album apply.
    pub fn tag_request(&mut self, kind: PendingApply)
        ensures
            tag_request_post(*old(self), *final(self), kind),
    {
        let ok = match kind {
            PendingApply::AlbumFull => self.album_sel < self.albums,
            _ => self.sel < self.candidates,
        };
        if ok {
            self.pending = Some(kind);
        }
    }

    /// Enter in the popup: after editing the query, search again;
    /// otherwise stage the apply for the active mode.
    pub fn tag_activate(&mut self) -> (a: TagActivate)
        ensures
            tag_activate_post(*old(self), *final(self), a),
    {
        if self.editing {
            self.editing = false;
            return TagActivate::Search;
        }
        if self.album_mode {
            self.tag_request(PendingApply::AlbumFull);
        } else {
            self.tag_request(PendingApply::Song);
        }
        TagActivate::Staged
    }

    /// Confirms the staged apply: it is consumed and returned for the
    /// caller to perform.
    pub fn tag_confirm(&mut self) -> (k: Option<PendingApply>)
        ensures
            tag_confirm_post(*old(self), *final(self), k),
    {
        let k = self.pending;
        self.pending = None;
        k
    }

    /// Starts writing the selected candidate: its index, unless the query is
    /// being edited or nothing is selected.
    pub fn tag_apply(&mut self) -> (c: Option<usize>)
        ensures
            tag_apply_post(*old(self), *final(self), c),
    {
        if self.editing || self.sel >= self.candidates {
            return None;
        }
        self.status = SearchStatus::Embedding;
        Some(self.sel)
    }

    /// Starts the search under the new request key `key`: results are
    /// cleared. With an empty query there is nothing to search (`None`).
    /// Otherwise the result says whether the query was edited away from
    /// its seed (then it is matched as an artist, with no title filter).
    pub fn start_search(&mut self, key: String) -> (r: Option<bool>)
        ensures
            final(self).key@ == key@,
            final(self).candidates == 0,
            final(self).sel == 0,
            old(self).query@.len() == 0 ==> r is None && final(self).status is Empty,
            old(self).query@.len() > 0 ==> final(self).status is Searching && r == Some(
                crate::text::trim_spec(old(self).query@) != crate::text::trim_spec(
                    old(self).seeded@,
                ),
            ),
            final(self).query == old(self).query,
    {
        self.key = key;
        self.candidates = 0;
        self.sel = 0;
        if self.query.as_str().unicode_len() == 0 {
            self.status = SearchStatus::Empty;
            return None;
        }
        self.status = SearchStatus::Searching;
        let q = crate::text::str_trim(self.query.as_str());
        let seed = crate::text::str_trim(self.seeded.as_str());
        Some(!str_eq(q.as_str(), seed.as_str()))
    }

    /// Switches between single-song and album mode; the result says the
    /// album sources are still to be searched.
    pub fn toggle_tag_album(&mut self) -> (fetch: bool)
        ensures
            toggle_tag_album_post(*old(self), *final(self), fetch),
    {
        self.album_mode = !self.album_mode;
        self.album_mode && self.albums == 0
    }

    /// Starts the album search under the new request key `key`, the
    /// sources cleared; an album without a name has nothing to search
    /// (`false`).
    pub fn start_album_search(&mut self, key: String, has_album: bool) -> (started: bool)
        ensures
            final(self).key@ == key@,
            final(self).albums == 0,
            final(self).album_sel == 0,
            final(self).track_sel == 0,
            started == has_album,
            has_album ==> final(self).status is Searching,
            !has_album ==> final(self).status is Empty,
    {
        self.key = key;
        self.albums = 0;
        self.album_sel = 0;
        self.track_sel = 0;
        if has_album {
            self.status = SearchStatus::Searching;
        } else {
            self.status = SearchStatus::Empty;
        }
        has_album
    }

    /// `count` candidates found for the request `key`; a stale key changes
    /// nothing.
    pub fn on_found(&mut self, key: &str, count: usize)
        ensures
            found_post(*old(self), *final(self), key@, count),
    {
        if !str_eq(key, self.key.as_str()) {
            return;
        }
        self.status = if count == 0 {
            SearchStatus::Empty
        } else {
            SearchStatus::Results
        };
        self.candidates = count;
        self.sel = 0;
    }

    /// `count` album sources found for the request `key`; a stale key
    /// changes nothing.
    pub fn on_album_found(&mut self, key: &str, count: usize)
        ensures
            album_found_post(*old(self), *final(self), key@, count),
    {
        if !str_eq(key, self.key.as_str()) {
            return;
        }
        self.status = if count == 0 {
            SearchStatus::Empty
        } else {
            SearchStatus::Results
        };
        self.albums = count;
        self.album_sel = 0;
        self.track_sel = 0;
    }

    /// The request `key` failed with `msg`; a stale key changes nothing.
    pub fn on_search_error(&mut self, key: &str, msg: String)
        ensures
            search_error_post(*old(self), *final(self), key@, msg@),
    {
        if str_eq(key, self.key.as_str()) {
            self.status = SearchStatus::Error(msg);
        }
    }
}

impl TagModal {
    /// An apply for the request `key` was written to `count` files: the
    /// modal closes, and the result says whether the library must be
    /// rescanned. For a request no longer open nothing changes (`None`).
    pub fn on_applied(&mut self, key: &str, count: usize) -> (rescan: Option<bool>)
        ensures
            ({
                let mine = old(self).search is Some && old(self).search->0.key@ == key@;
                &&& mine ==> rescan == Some(count > 0) && final(self).edit is None
                    && final(self).search is None && final(self).cover is None && final(self).tab
                    == 0
                &&& !mine ==> rescan is None && *final(self) == *old(self)
            }),
    {
        let mine = match &self.search {
            Some(ts) => str_eq(ts.key.as_str(), key),
            None => false,
        };
        if !mine {
            return None;
        }
        self.close_tags();
        Some(count > 0)
    }
}

/// An action on the Edit tab's editor.
pub enum EditAction {
    /// Start typing into the focused field.
    BeginEdit,
    /// Back to browsing the fields.
    StopEdit,
    Move(FieldStep),
    Insert(char),
    Backspace,
    Delete,
    Caret(Caret),
    /// Replace the focused field.
    Type(String),
    /// Case-transform the focused field (1 UPPER, 2 lower, else Title).
    Case(u8),
    Clear,
    /// Open the filename-to-tags converter.
    ConvertBegin,
    /// Open the tags-to-filename renamer.
    RenameBegin,
    ConvertType(String),
    ConvertCancel,
    ReplaceBegin,
    ReplaceType(String),
    ReplaceToggle,
    ReplaceCancel,
    /// Arm the apply-to-album confirmation.
    AlbumPrompt,
    AlbumCancel,
}

/// What `a` does to the editor `o`, the focused field being `numeric`:
/// `n` is the editor after it.
pub open spec fn edit_post(o: TagEdit, n: TagEdit, a: EditAction, numeric: bool) -> bool {
    match a {
        EditAction::BeginEdit => begin_edit_post(o, n),
        EditAction::StopEdit => stop_edit_post(o, n),
        EditAction::Move(step) => move_field_post(o, n, step),
        EditAction::Insert(c) => insert_post(o, n, c, numeric),
        EditAction::Backspace => delete_post(o, n, false),
        EditAction::Delete => delete_post(o, n, true),
        EditAction::Caret(c) => move_caret_post(o, n, c),
        EditAction::Type(s) => set_field_post(o, n, s, numeric),
        EditAction::Case(m) => set_case_post(o, n, m, numeric),
        EditAction::Clear => clear_post(o, n),
        EditAction::ConvertBegin => convert_begin_post(o, n, false),
        EditAction::RenameBegin => convert_begin_post(o, n, true),
        EditAction::ConvertType(s) => convert_type_post(o, n, s),
        EditAction::ConvertCancel => convert_cancel_post(o, n),
        EditAction::ReplaceBegin => replace_begin_post(o, n),
        EditAction::ReplaceType(s) => replace_type_post(o, n, s),
        EditAction::ReplaceToggle => replace_toggle_post(o, n),
        EditAction::ReplaceCancel => replace_cancel_post(o, n),
        EditAction::AlbumPrompt => n.confirm_album == (o.confirm_album || any_touched(
            o.touched@,
        )) && n.draft@ == o.draft@ && n.touched@ == o.touched@,
        EditAction::AlbumCancel => album_cancel_post(o, n),
    }
}

impl TagModal {
    /// Applies an Edit-tab action to the open editor, the focused field
    /// being `numeric`; without an editor nothing changes. The result says
    /// an apply-to-album was asked for with nothing changed, which the
    /// caller reports as "No changes".
    pub fn update_edit(&mut self, a: EditAction, numeric: bool) -> (no_changes: bool)
        requires
            old(self).edit matches Some(te) ==> te.wf(),
            old(self).edit matches Some(te) ==> te.focused().len() < usize::MAX,
        ensures
            final(self).tab == old(self).tab,
            final(self).search == old(self).search,
            final(self).cover == old(self).cover,
            old(self).edit is None ==> final(self).edit is None && no_changes == (a is AlbumPrompt),
            old(self).edit matches Some(o) ==> {
                &&& final(self).edit matches Some(n) && n.wf() && edit_post(o, n, a, numeric)
                &&& no_changes == (a is AlbumPrompt && !any_touched(o.touched@))
            },
    {
        let is_prompt = match &a {
            EditAction::AlbumPrompt => true,
            _ => false,
        };
        match &mut self.edit {
            None => is_prompt,
            Some(te) => {
                match a {
                    EditAction::BeginEdit => te.begin_edit(),
                    EditAction::StopEdit => te.stop_edit(),
                    EditAction::Move(step) => te.move_field(step),
                    EditAction::Insert(c) => te.insert(c, numeric),
                    EditAction::Backspace => te.delete(false),
                    EditAction::Delete => te.delete(true),
                    EditAction::Caret(c) => te.move_caret(c),
                    EditAction::Type(s) => te.set_field(s, numeric),
                    EditAction::Case(m) => te.set_case(m, numeric),
                    EditAction::Clear => te.clear(),
                    EditAction::ConvertBegin => te.convert_begin(false),
                    EditAction::RenameBegin => te.convert_begin(true),
                    EditAction::ConvertType(s) => te.convert_type(s),
                    EditAction::ConvertCancel => te.convert_cancel(),
                    EditAction::ReplaceBegin => te.replace_begin(),
                    EditAction::ReplaceType(s) => te.replace_type(s),
                    EditAction::ReplaceToggle => te.replace_toggle(),
                    EditAction::ReplaceCancel => te.replace_cancel(),
                    EditAction::AlbumPrompt => {
                        let armed = te.album_prompt();
                        return !armed;
                    },
                    EditAction::AlbumCancel => te.album_cancel(),
                }
                false
            },
        }
    }
}

/// What `TagSearch::tag_move` does: `n` is `o` after it.
pub open spec fn tag_move_post(o: TagSearch, n: TagSearch, m: ListStep) -> bool {
    &&& n.sel == if !o.editing && !o.album_mode
        && o.candidates > 0 {
        row_after(o.sel as int, o.candidates as int, m) as usize
    } else {
        o.sel
    }
    &&& n.track_sel == if !o.editing && o.album_mode
        && o.album_tracks > 0 {
        row_after(o.track_sel as int, o.album_tracks as int, m) as usize
    } else {
        o.track_sel
    }
    &&& n.album_sel == o.album_sel
    &&& n.pending == o.pending
}

/// What `TagSearch::tag_source` does: `n` is `o` after it.
pub open spec fn tag_source_post(o: TagSearch, n: TagSearch, dir: i32) -> bool {
    &&& o.album_mode && o.albums > 0 ==> n.album_sel == (
        o.album_sel + dir) % (o.albums as int) && n.track_sel
        == 0
    &&& !(o.album_mode && o.albums > 0) ==> n.album_sel == o.album_sel && n.track_sel == o.track_sel
    &&& n.sel == o.sel
}

/// What `TagSearch::tag_input` does: `n` is `o` after it.
pub open spec fn tag_input_post(o: TagSearch, n: TagSearch, s: String) -> bool {
    &&& n.editing
    &&& n.query@ == s@
    &&& n.qcaret == s@.len()
    &&& n.sel == o.sel
    &&& n.pending == o.pending
}

/// What `TagSearch::tag_request` does: `n` is `o` after it.
pub open spec fn tag_request_post(o: TagSearch, n: TagSearch, kind: PendingApply) -> bool {
    &&& ({
        let ok = if kind == PendingApply::AlbumFull {
            o.album_sel < o.albums
        } else {
            o.sel < o.candidates
        };
        n.pending == if ok {
            Some(kind)
        } else {
            o.pending
        }
    })
    &&& n.sel == o.sel
    &&& n.editing == o.editing
}

/// What `TagSearch::tag_activate` does: `n` is `o` after it.
pub open spec fn tag_activate_post(o: TagSearch, n: TagSearch, a: TagActivate) -> bool {
    &&& o.editing ==> a == TagActivate::Search && !n.editing
        && n.pending == o.pending
    &&& !o.editing ==> a == TagActivate::Staged && !n.editing && ({
        let kind = if o.album_mode {
            PendingApply::AlbumFull
        } else {
            PendingApply::Song
        };
        let ok = if o.album_mode {
            o.album_sel < o.albums
        } else {
            o.sel < o.candidates
        };
        n.pending == if ok {
            Some(kind)
        } else {
            o.pending
        }
    })
}

/// What `TagSearch::tag_confirm` does: `n` is `o` after it.
pub open spec fn tag_confirm_post(o: TagSearch, n: TagSearch, k: Option<PendingApply>) -> bool {
    &&& k == o.pending
    &&& n.pending is None
}

/// What `TagSearch::tag_apply` does: `n` is `o` after it.
pub open spec fn tag_apply_post(o: TagSearch, n: TagSearch, c: Option<usize>) -> bool {
    &&& c == if !o.editing && o.sel < o.candidates {
        Some(o.sel)
    } else {
        None
    }
    &&& c is Some ==> n.status is Embedding
    &&& c is None ==> n.status == o.status
}

/// What `TagSearch::toggle_tag_album` does: `n` is `o` after it.
pub open spec fn toggle_tag_album_post(o: TagSearch, n: TagSearch, fetch: bool) -> bool {
    &&& n.album_mode == !o.album_mode
    &&& fetch == (n.album_mode && o.albums == 0)
    &&& n.sel == o.sel
}

/// What `TagModal::tags_tab_step` does: `n` is `o` after it.
pub open spec fn tags_tab_step_post(o: TagModal, n: TagModal, dir: i32, open: Option<TabOpen>) -> bool {
    &&& !o.shown() ==> n.tab == o.tab && open is None
    &&& o.shown() ==> n.tab == tab_after(o.tab as int, dir as int)
    &&& n.edit == o.edit
    &&& n.search == o.search
    &&& n.cover == o.cover
}

/// A result of the online tag search.
pub enum TagResult {
    /// Candidates found for a single-song search.
    Found { key: String, count: usize },
    /// Album sources found for an album search.
    AlbumFound { key: String, count: usize },
    Error { key: String, msg: String },
    /// An apply was written to `count` files; `msg` reports it.
    Applied { key: String, count: usize, msg: String },
}

impl TagModal {
    /// Applies a tag-search result to the Auto Tag popup, when it is still
    /// the popup's request. An applied write closes the modal and returns
    /// whether the library must be rescanned and the notice to show.
    pub fn on_tag_result(&mut self, res: TagResult) -> (r: Option<(bool, String)>)
        ensures
            final(self).edit == old(self).edit || (res is Applied && final(self).edit is None),
            match res {
                TagResult::Found { key, count } => r is None && match old(self).search {
                    Some(o) => final(self).search matches Some(n) && found_post(o, n, key@, count),
                    None => final(self).search is None,
                },
                TagResult::AlbumFound { key, count } => r is None && match old(self).search {
                    Some(o) => final(self).search matches Some(n) && album_found_post(
                        o,
                        n,
                        key@,
                        count,
                    ),
                    None => final(self).search is None,
                },
                TagResult::Error { key, msg } => r is None && match old(self).search {
                    Some(o) => final(self).search matches Some(n) && search_error_post(
                        o,
                        n,
                        key@,
                        msg@,
                    ),
                    None => final(self).search is None,
                },
                TagResult::Applied { key, count, msg } => {
                    let mine = old(self).search is Some && old(self).search->0.key@ == key@;
                    &&& mine ==> (r matches Some((rescan, notice)) && rescan == (count > 0)
                        && notice@ == msg@) && !final(self).shown() && final(self).tab == 0
                    &&& !mine ==> r is None && *final(self) == *old(self)
                },
            },
    {
        match res {
            TagResult::Found { key, count } => {
                match &mut self.search {
                    Some(ts) => ts.on_found(key.as_str(), count),
                    None => {},
                }
                None
            },
            TagResult::AlbumFound { key, count } => {
                match &mut self.search {
                    Some(ts) => ts.on_album_found(key.as_str(), count),
                    None => {},
                }
                None
            },
            TagResult::Error { key, msg } => {
                match &mut self.search {
                    Some(ts) => ts.on_search_error(key.as_str(), msg),
                    None => {},
                }
                None
            },
            TagResult::Applied { key, count, msg } => {
                match self.on_applied(key.as_str(), count) {
                    Some(rescan) => Some((rescan, msg)),
                    None => None,
                }
            },
        }
    }
}

impl TagModal {
    /// Opens the modal on the Edit tab with an editor over `targets`, whose
    /// tags are `drafts` (see `TagEdit::from_drafts`). Tag editing is for
    /// local files: in the Radio and Spotify views, or with nothing to edit,
    /// the modal stays as it is and the result is the notice to show.
    pub fn open_tags(&mut self, layout: Layout, targets: Vec<u64>, drafts: &Vec<Vec<String>>) -> (notice:
        Option<String>)
        requires
            drafts.len() > 0 ==> drafts[0].len() > 0,
            forall|k: int| 0 <= k < drafts.len() ==> #[trigger] drafts[k].len() == drafts[0].len(),
        ensures
            (layout == Layout::Radio || layout == Layout::Spotify) ==> (notice matches Some(t)
                && t@ == "Tag editing is for local music, not streams"@) && *final(self)
                == *old(self),
            !(layout == Layout::Radio || layout == Layout::Spotify) && drafts.len() == 0 ==> (
            notice matches Some(t) && t@ == "No track to edit"@) && final(self).tab == 0
                && final(self).edit == old(self).edit && final(self).search == old(self).search
                && final(self).cover == old(self).cover,
            !(layout == Layout::Radio || layout == Layout::Spotify) && drafts.len() > 0 ==> {
                &&& notice is None
                &&& final(self).tab == 0
                &&& final(self).edit matches Some(te) && te.wf() && te.targets@ == targets@
                    && te.draft.len() == drafts[0].len() && te.cursor == 0 && !te.editing
                &&& final(self).search == old(self).search
                &&& final(self).cover == old(self).cover
            },
    {
        if layout == Layout::Radio || layout == Layout::Spotify {
            return Some(string_from("Tag editing is for local music, not streams"));
        }
        self.tab = 0;
        match TagEdit::from_drafts(targets, drafts) {
            Some(te) => {
                self.edit = Some(te);
                None
            },
            None => Some(string_from("No track to edit")),
        }
    }
}

/// The popup's label for a track: "title · artist", the title alone, or
/// "this track" without a title.
pub open spec fn search_label(title: Seq<char>, artist: Seq<char>) -> Seq<char> {
    if title.len() > 0 && artist.len() > 0 {
        title + " · "@ + artist
    } else if title.len() > 0 {
        title
    } else {
        "this track"@
    }
}

impl TagSearch {
    /// The Auto Tag popup for a track titled `title` by `artist`, whose
    /// album has `album_tracks` local tracks: seeded with the query
    /// "artist title" (trimmed), searching, single-song mode. The second
    /// result is the popup's label.
    pub fn open_tag_search(title: &str, artist: &str, album_tracks: usize) -> (r: (TagSearch, String))
        ensures
            r.0.query@ == trim_spec(artist@ + " "@ + title@),
            r.0.seeded@ == r.0.query@,
            r.0.key@.len() == 0,
            r.0.status is Searching,
            r.0.candidates == 0 && r.0.sel == 0,
            !r.0.album_mode && r.0.albums == 0 && r.0.album_sel == 0,
            r.0.album_tracks == album_tracks && r.0.track_sel == 0,
            r.0.pending is None,
            !r.0.editing,
            r.0.qcaret == 0,
            r.1@ == search_label(title@, artist@),
    {
        let mut raw = string_from(artist);
        push_str(&mut raw, " ");
        push_str(&mut raw, title);
        let query = crate::text::str_trim(raw.as_str());
        let seeded = string_from(query.as_str());
        let tlen = title.unicode_len();
        let alen = artist.unicode_len();
        let label = if tlen > 0 && alen > 0 {
            let mut l = string_from(title);
            push_str(&mut l, " · ");
            push_str(&mut l, artist);
            l
        } else if tlen > 0 {
            string_from(title)
        } else {
            string_from("this track")
        };
        let ts = TagSearch {
            key: String::new(),
            query,
            seeded,
            qcaret: 0,
            editing: false,
            status: SearchStatus::Searching,
            candidates: 0,
            sel: 0,
            album_mode: false,
            albums: 0,
            album_sel: 0,
            album_tracks,
            track_sel: 0,
            pending: None,
        };
        (ts, label)
    }
}

/// The key of the next tag-search request: the counter `seq` steps on and
/// the key is "ts" followed by it, so an older request's results are told
/// apart as stale.
pub fn next_search_key(seq: &mut u64) -> (key: String)
    requires
        *old(seq) < u64::MAX,
    ensures
        *final(seq) == *old(seq) + 1,
        key@ == "ts"@ + decimal(*final(seq) as nat),
{
    *seq = *seq + 1;
    let mut key = string_from("ts");
    push_decimal(&mut key, *seq);
    key
}

} // verus!
