//! Minimal Arabic shaping for the terminal: join letters into their contextual
//! presentation forms (Arabic Presentation Forms-B) and reorder runs for RTL
//! display. Terminals render code points left-to-right with no shaping, so raw
//! Arabic looks reversed and "disconnected" — this makes it readable.
//!
//! It's intentionally small: a single-letter joiner + lam-alef ligatures + a
//! light bidi pass (RTL base, with embedded Latin/number runs kept in order).
//! Not a full UAX#9 implementation, but good for names and prose.

use vstd::prelude::*;

use crate::text::{chars_of, push_char, string_of};
use crate::unicode::{
    alphanumeric, char_width, display_width, is_alphanumeric, is_white_space, white_space,
    width_of_char, width_of_chars,
};

verus! {

// ---------------------------------------------------------------------------
// Character classes
// ---------------------------------------------------------------------------

/// Arabic-script code points (Arabic, Arabic Supplement, Arabic Extended-A and
/// the two presentation-form blocks).
pub open spec fn arabic_char(c: char) -> bool {
    let u = c as u32;
    (0x0600 <= u <= 0x06FF) || (0x0750 <= u <= 0x077F) || (0x08A0 <= u <= 0x08FF) || (0xFB50
        <= u <= 0xFDFF) || (0xFE70 <= u <= 0xFEFF)
}

/// Arabic harakat (vowel marks) and the superscript alef: marks that sit on a
/// letter and are transparent to joining.
pub open spec fn diacritic(c: char) -> bool {
    let u = c as u32;
    (0x064B <= u <= 0x0652) || u == 0x0670
}

/// Does the text contain any Arabic-script characters?
pub open spec fn has_arabic(s: Seq<char>) -> bool {
    exists|i: int| 0 <= i < s.len() && arabic_char(#[trigger] s[i])
}

fn is_arabic(c: char) -> (b: bool)
    ensures
        b == arabic_char(c),
{
    let u = c as u32;
    (0x0600 <= u && u <= 0x06FF) || (0x0750 <= u && u <= 0x077F) || (0x08A0 <= u && u <= 0x08FF)
        || (0xFB50 <= u && u <= 0xFDFF) || (0xFE70 <= u && u <= 0xFEFF)
}

fn is_diacritic(c: char) -> (b: bool)
    ensures
        b == diacritic(c),
{
    let u = c as u32;
    (0x064B <= u && u <= 0x0652) || u == 0x0670
}

/// Does the text contain any Arabic-script characters?
pub fn contains_arabic(s: &str) -> (b: bool)
    ensures
        b == has_arabic(s@),
{
    let cs = chars_of(s);
    let mut i: usize = 0;
    while i < cs.len()
        invariant
            i <= cs.len(),
            cs@ == s@,
            forall|j: int| 0 <= j < i ==> !arabic_char(#[trigger] cs@[j]),
        decreases cs.len() - i,
    {
        if is_arabic(cs[i]) {
            assert(arabic_char(s@[i as int]));
            return true;
        }
        i += 1;
    }
    false
}

// ---------------------------------------------------------------------------
// Joining
// ---------------------------------------------------------------------------

pub const LAM: char = '\u{0644}';

/// The four presentation forms of a letter and whether it is dual-joining
/// (connects on its left to a following letter). Right-joining letters only
/// connect to the preceding letter, so their initial/medial forms repeat the
/// isolated/final ones.
#[derive(Clone, Copy, PartialEq, Eq, Structural)]
struct Forms {
    dual: bool,
    isolated: char,
    fin: char,
    initial: char,
    medial: char,
}

/// A right-joining letter's forms.
pub open spec fn right_joining(iso: char, fin: char) -> (bool, char, char, char, char) {
    (false, iso, fin, iso, fin)
}

/// A dual-joining letter's forms.
pub open spec fn dual_joining(iso: char, fin: char, ini: char, med: char) -> (
    bool,
    char,
    char,
    char,
    char,
) {
    (true, iso, fin, ini, med)
}

/// The joining table: `(dual, isolated, final, initial, medial)` for each
/// base Arabic letter, `None` for everything else.
pub open spec fn letter_forms(c: char) -> Option<(bool, char, char, char, char)> {
    if c == '\u{0622}' {
        Some(right_joining('\u{FE81}', '\u{FE82}'))
    } else if c == '\u{0623}' {
        Some(right_joining('\u{FE83}', '\u{FE84}'))
    } else if c == '\u{0624}' {
        Some(right_joining('\u{FE85}', '\u{FE86}'))
    } else if c == '\u{0625}' {
        Some(right_joining('\u{FE87}', '\u{FE88}'))
    } else if c == '\u{0626}' {
        Some(dual_joining('\u{FE89}', '\u{FE8A}', '\u{FE8B}', '\u{FE8C}'))
    } else if c == '\u{0627}' {
        Some(right_joining('\u{FE8D}', '\u{FE8E}'))
    } else if c == '\u{0628}' {
        Some(dual_joining('\u{FE8F}', '\u{FE90}', '\u{FE91}', '\u{FE92}'))
    } else if c == '\u{0629}' {
        Some(right_joining('\u{FE93}', '\u{FE94}'))
    } else if c == '\u{062A}' {
        Some(dual_joining('\u{FE95}', '\u{FE96}', '\u{FE97}', '\u{FE98}'))
    } else if c == '\u{062B}' {
        Some(dual_joining('\u{FE99}', '\u{FE9A}', '\u{FE9B}', '\u{FE9C}'))
    } else if c == '\u{062C}' {
        Some(dual_joining('\u{FE9D}', '\u{FE9E}', '\u{FE9F}', '\u{FEA0}'))
    } else if c == '\u{062D}' {
        Some(dual_joining('\u{FEA1}', '\u{FEA2}', '\u{FEA3}', '\u{FEA4}'))
    } else if c == '\u{062E}' {
        Some(dual_joining('\u{FEA5}', '\u{FEA6}', '\u{FEA7}', '\u{FEA8}'))
    } else if c == '\u{062F}' {
        Some(right_joining('\u{FEA9}', '\u{FEAA}'))
    } else if c == '\u{0630}' {
        Some(right_joining('\u{FEAB}', '\u{FEAC}'))
    } else if c == '\u{0631}' {
        Some(right_joining('\u{FEAD}', '\u{FEAE}'))
    } else if c == '\u{0632}' {
        Some(right_joining('\u{FEAF}', '\u{FEB0}'))
    } else if c == '\u{0633}' {
        Some(dual_joining('\u{FEB1}', '\u{FEB2}', '\u{FEB3}', '\u{FEB4}'))
    } else if c == '\u{0634}' {
        Some(dual_joining('\u{FEB5}', '\u{FEB6}', '\u{FEB7}', '\u{FEB8}'))
    } else if c == '\u{0635}' {
        Some(dual_joining('\u{FEB9}', '\u{FEBA}', '\u{FEBB}', '\u{FEBC}'))
    } else if c == '\u{0636}' {
        Some(dual_joining('\u{FEBD}', '\u{FEBE}', '\u{FEBF}', '\u{FEC0}'))
    } else if c == '\u{0637}' {
        Some(dual_joining('\u{FEC1}', '\u{FEC2}', '\u{FEC3}', '\u{FEC4}'))
    } else if c == '\u{0638}' {
        Some(dual_joining('\u{FEC5}', '\u{FEC6}', '\u{FEC7}', '\u{FEC8}'))
    } else if c == '\u{0639}' {
        Some(dual_joining('\u{FEC9}', '\u{FECA}', '\u{FECB}', '\u{FECC}'))
    } else if c == '\u{063A}' {
        Some(dual_joining('\u{FECD}', '\u{FECE}', '\u{FECF}', '\u{FED0}'))
    } else if c == '\u{0641}' {
        Some(dual_joining('\u{FED1}', '\u{FED2}', '\u{FED3}', '\u{FED4}'))
    } else if c == '\u{0642}' {
        Some(dual_joining('\u{FED5}', '\u{FED6}', '\u{FED7}', '\u{FED8}'))
    } else if c == '\u{0643}' {
        Some(dual_joining('\u{FED9}', '\u{FEDA}', '\u{FEDB}', '\u{FEDC}'))
    } else if c == '\u{0644}' {
        Some(dual_joining('\u{FEDD}', '\u{FEDE}', '\u{FEDF}', '\u{FEE0}'))
    } else if c == '\u{0645}' {
        Some(dual_joining('\u{FEE1}', '\u{FEE2}', '\u{FEE3}', '\u{FEE4}'))
    } else if c == '\u{0646}' {
        Some(dual_joining('\u{FEE5}', '\u{FEE6}', '\u{FEE7}', '\u{FEE8}'))
    } else if c == '\u{0647}' {
        Some(dual_joining('\u{FEE9}', '\u{FEEA}', '\u{FEEB}', '\u{FEEC}'))
    } else if c == '\u{0648}' {
        Some(right_joining('\u{FEED}', '\u{FEEE}'))
    } else if c == '\u{0649}' {
        Some(right_joining('\u{FEEF}', '\u{FEF0}'))
    } else if c == '\u{064A}' {
        Some(dual_joining('\u{FEF1}', '\u{FEF2}', '\u{FEF3}', '\u{FEF4}'))
    } else {
        None
    }
}

spec fn forms_view(f: Forms) -> (bool, char, char, char, char) {
    (f.dual, f.isolated, f.fin, f.initial, f.medial)
}

fn right(iso: char, fin: char) -> (f: Forms)
    ensures
        forms_view(f) == right_joining(iso, fin),
{
    Forms { dual: false, isolated: iso, fin, initial: iso, medial: fin }
}

fn dual(iso: char, fin: char, ini: char, med: char) -> (f: Forms)
    ensures
        forms_view(f) == dual_joining(iso, fin, ini, med),
{
    Forms { dual: true, isolated: iso, fin, initial: ini, medial: med }
}

/// The joining table entry of a letter.
fn forms(c: char) -> (r: Option<Forms>)
    ensures
        match r {
            Some(f) => letter_forms(c) == Some(forms_view(f)),
            None => letter_forms(c) is None,
        },
{
    if c == '\u{0622}' {
        Some(right('\u{FE81}', '\u{FE82}'))
    } else if c == '\u{0623}' {
        Some(right('\u{FE83}', '\u{FE84}'))
    } else if c == '\u{0624}' {
        Some(right('\u{FE85}', '\u{FE86}'))
    } else if c == '\u{0625}' {
        Some(right('\u{FE87}', '\u{FE88}'))
    } else if c == '\u{0626}' {
        Some(dual('\u{FE89}', '\u{FE8A}', '\u{FE8B}', '\u{FE8C}'))
    } else if c == '\u{0627}' {
        Some(right('\u{FE8D}', '\u{FE8E}'))
    } else if c == '\u{0628}' {
        Some(dual('\u{FE8F}', '\u{FE90}', '\u{FE91}', '\u{FE92}'))
    } else if c == '\u{0629}' {
        Some(right('\u{FE93}', '\u{FE94}'))
    } else if c == '\u{062A}' {
        Some(dual('\u{FE95}', '\u{FE96}', '\u{FE97}', '\u{FE98}'))
    } else if c == '\u{062B}' {
        Some(dual('\u{FE99}', '\u{FE9A}', '\u{FE9B}', '\u{FE9C}'))
    } else if c == '\u{062C}' {
        Some(dual('\u{FE9D}', '\u{FE9E}', '\u{FE9F}', '\u{FEA0}'))
    } else if c == '\u{062D}' {
        Some(dual('\u{FEA1}', '\u{FEA2}', '\u{FEA3}', '\u{FEA4}'))
    } else if c == '\u{062E}' {
        Some(dual('\u{FEA5}', '\u{FEA6}', '\u{FEA7}', '\u{FEA8}'))
    } else if c == '\u{062F}' {
        Some(right('\u{FEA9}', '\u{FEAA}'))
    } else if c == '\u{0630}' {
        Some(right('\u{FEAB}', '\u{FEAC}'))
    } else if c == '\u{0631}' {
        Some(right('\u{FEAD}', '\u{FEAE}'))
    } else if c == '\u{0632}' {
        Some(right('\u{FEAF}', '\u{FEB0}'))
    } else if c == '\u{0633}' {
        Some(dual('\u{FEB1}', '\u{FEB2}', '\u{FEB3}', '\u{FEB4}'))
    } else if c == '\u{0634}' {
        Some(dual('\u{FEB5}', '\u{FEB6}', '\u{FEB7}', '\u{FEB8}'))
    } else if c == '\u{0635}' {
        Some(dual('\u{FEB9}', '\u{FEBA}', '\u{FEBB}', '\u{FEBC}'))
    } else if c == '\u{0636}' {
        Some(dual('\u{FEBD}', '\u{FEBE}', '\u{FEBF}', '\u{FEC0}'))
    } else if c == '\u{0637}' {
        Some(dual('\u{FEC1}', '\u{FEC2}', '\u{FEC3}', '\u{FEC4}'))
    } else if c == '\u{0638}' {
        Some(dual('\u{FEC5}', '\u{FEC6}', '\u{FEC7}', '\u{FEC8}'))
    } else if c == '\u{0639}' {
        Some(dual('\u{FEC9}', '\u{FECA}', '\u{FECB}', '\u{FECC}'))
    } else if c == '\u{063A}' {
        Some(dual('\u{FECD}', '\u{FECE}', '\u{FECF}', '\u{FED0}'))
    } else if c == '\u{0641}' {
        Some(dual('\u{FED1}', '\u{FED2}', '\u{FED3}', '\u{FED4}'))
    } else if c == '\u{0642}' {
        Some(dual('\u{FED5}', '\u{FED6}', '\u{FED7}', '\u{FED8}'))
    } else if c == '\u{0643}' {
        Some(dual('\u{FED9}', '\u{FEDA}', '\u{FEDB}', '\u{FEDC}'))
    } else if c == '\u{0644}' {
        Some(dual('\u{FEDD}', '\u{FEDE}', '\u{FEDF}', '\u{FEE0}'))
    } else if c == '\u{0645}' {
        Some(dual('\u{FEE1}', '\u{FEE2}', '\u{FEE3}', '\u{FEE4}'))
    } else if c == '\u{0646}' {
        Some(dual('\u{FEE5}', '\u{FEE6}', '\u{FEE7}', '\u{FEE8}'))
    } else if c == '\u{0647}' {
        Some(dual('\u{FEE9}', '\u{FEEA}', '\u{FEEB}', '\u{FEEC}'))
    } else if c == '\u{0648}' {
        Some(right('\u{FEED}', '\u{FEEE}'))
    } else if c == '\u{0649}' {
        Some(right('\u{FEEF}', '\u{FEF0}'))
    } else if c == '\u{064A}' {
        Some(dual('\u{FEF1}', '\u{FEF2}', '\u{FEF3}', '\u{FEF4}'))
    } else {
        None
    }
}

/// lam + alef → ligature `(isolated, final)`, keyed by the alef.
pub open spec fn lam_alef_forms(next: char) -> Option<(char, char)> {
    if next == '\u{0622}' {
        Some(('\u{FEF5}', '\u{FEF6}'))
    } else if next == '\u{0623}' {
        Some(('\u{FEF7}', '\u{FEF8}'))
    } else if next == '\u{0625}' {
        Some(('\u{FEF9}', '\u{FEFA}'))
    } else if next == '\u{0627}' {
        Some(('\u{FEFB}', '\u{FEFC}'))
    } else {
        None
    }
}

fn lam_alef(next: char) -> (r: Option<(char, char)>)
    ensures
        r == lam_alef_forms(next),
{
    if next == '\u{0622}' {
        Some(('\u{FEF5}', '\u{FEF6}'))
    } else if next == '\u{0623}' {
        Some(('\u{FEF7}', '\u{FEF8}'))
    } else if next == '\u{0625}' {
        Some(('\u{FEF9}', '\u{FEFA}'))
    } else if next == '\u{0627}' {
        Some(('\u{FEFB}', '\u{FEFC}'))
    } else {
        None
    }
}

/// The letter can connect to a *following* letter (dual-joining).
pub open spec fn joins_left_spec(c: char) -> bool {
    match letter_forms(c) {
        Some(f) => f.0,
        None => false,
    }
}

/// The letter can connect to a *preceding* letter (any joining letter).
pub open spec fn joins_right_spec(c: char) -> bool {
    letter_forms(c) is Some
}

fn joins_left(c: char) -> (b: bool)
    ensures
        b == joins_left_spec(c),
{
    match forms(c) {
        Some(f) => f.dual,
        None => false,
    }
}

fn joins_right(c: char) -> (b: bool)
    ensures
        b == joins_right_spec(c),
{
    forms(c).is_some()
}

/// The nearest letter (non-diacritic) strictly before position `i`.
pub open spec fn prev_letter_spec(cs: Seq<char>, i: int) -> Option<char>
    decreases i,
{
    if i <= 0 {
        None
    } else if !diacritic(cs[i - 1]) {
        Some(cs[i - 1])
    } else {
        prev_letter_spec(cs, i - 1)
    }
}

/// The position of the first letter (non-diacritic) at or after `j`.
pub open spec fn letter_pos_from(cs: Seq<char>, j: int) -> Option<int>
    decreases cs.len() - j,
{
    if j >= cs.len() || j < 0 {
        None
    } else if !diacritic(cs[j]) {
        Some(j)
    } else {
        letter_pos_from(cs, j + 1)
    }
}

/// The nearest letter (non-diacritic) strictly after position `i`.
pub open spec fn next_letter_spec(cs: Seq<char>, i: int) -> Option<char> {
    match letter_pos_from(cs, i + 1) {
        Some(p) => Some(cs[p]),
        None => None,
    }
}

/// The preceding letter joins onto position `i`.
pub open spec fn joins_prev(cs: Seq<char>, i: int) -> bool {
    match prev_letter_spec(cs, i) {
        Some(p) => joins_left_spec(p),
        None => false,
    }
}

/// The contextual form of the character at `i` (when no ligature applies).
pub open spec fn contextual_form(cs: Seq<char>, i: int) -> char {
    let c = cs[i];
    match letter_forms(c) {
        Some(f) => {
            let jp = joins_prev(cs, i);
            let jn = f.0 && match next_letter_spec(cs, i) {
                Some(n) => joins_right_spec(n),
                None => false,
            };
            if f.0 {
                if jp && jn {
                    f.4
                } else if !jp && jn {
                    f.3
                } else if jp && !jn {
                    f.2
                } else {
                    f.1
                }
            } else if jp {
                f.2
            } else {
                f.1
            }
        },
        None => c,
    }
}

/// A lam at `i` whose next letter is an alef forms a ligature with it; returns
/// the alef's position and the ligature's two forms.
pub open spec fn ligature_at(cs: Seq<char>, i: int) -> Option<(int, (char, char))> {
    if cs[i] == LAM {
        match letter_pos_from(cs, i + 1) {
            Some(p) => match lam_alef_forms(cs[p]) {
                Some(f) => Some((p, f)),
                None => None,
            },
            None => None,
        }
    } else {
        None
    }
}

pub proof fn lemma_letter_pos_bounds(cs: Seq<char>, j: int)
    ensures
        letter_pos_from(cs, j) matches Some(p) ==> j <= p < cs.len() && !diacritic(cs[p]),
    decreases cs.len() - j,
{
    if j >= cs.len() || j < 0 {
    } else if !diacritic(cs[j]) {
    } else {
        lemma_letter_pos_bounds(cs, j + 1);
    }
}

/// The shaped text from position `i` on: each lam-alef pair becomes one
/// ligature glyph (the marks between them are absorbed), every other letter
/// takes its contextual form, and everything else is kept.
pub open spec fn reshape_from(cs: Seq<char>, i: int) -> Seq<char>
    decreases cs.len() - i,
{
    if i >= cs.len() || i < 0 {
        seq![]
    } else {
        match ligature_at(cs, i) {
            Some((p, f)) => {
                proof {
                    lemma_letter_pos_bounds(cs, i + 1);
                }
                let g = if joins_prev(cs, i) {
                    f.1
                } else {
                    f.0
                };
                seq![g] + reshape_from(cs, p + 1)
            },
            None => seq![contextual_form(cs, i)] + reshape_from(cs, i + 1),
        }
    }
}

/// The reshaped (joined) form of a whole text.
pub open spec fn reshape_spec(cs: Seq<char>) -> Seq<char> {
    reshape_from(cs, 0)
}

fn prev_letter(cs: &Vec<char>, i: usize) -> (r: Option<char>)
    requires
        i <= cs.len(),
    ensures
        r == prev_letter_spec(cs@, i as int),
{
    let mut k = i;
    while k > 0
        invariant
            k <= i <= cs.len(),
            prev_letter_spec(cs@, i as int) == prev_letter_spec(cs@, k as int),
        decreases k,
    {
        if !is_diacritic(cs[k - 1]) {
            return Some(cs[k - 1]);
        }
        k -= 1;
    }
    None
}

fn letter_pos(cs: &Vec<char>, j: usize) -> (r: Option<usize>)
    ensures
        match r {
            Some(p) => letter_pos_from(cs@, j as int) == Some(p as int),
            None => letter_pos_from(cs@, j as int) is None,
        },
{
    let mut k = j;
    while k < cs.len()
        invariant
            j <= k,
            letter_pos_from(cs@, j as int) == letter_pos_from(cs@, k as int),
        decreases cs.len() - k,
    {
        if !is_diacritic(cs[k]) {
            return Some(k);
        }
        k += 1;
    }
    None
}

fn next_letter(cs: &Vec<char>, i: usize) -> (r: Option<char>)
    requires
        i < cs.len(),
    ensures
        r == next_letter_spec(cs@, i as int),
{
    proof {
        lemma_letter_pos_bounds(cs@, i + 1);
    }
    match letter_pos(cs, i + 1) {
        Some(p) => Some(cs[p]),
        None => None,
    }
}

/// Replace Arabic letters with their contextual presentation forms (joining).
pub fn reshape(s: &str) -> (out: String)
    ensures
        out@ == reshape_spec(s@),
{
    let cs = chars_of(s);
    let n = cs.len();
    let mut out = String::new();
    let mut i: usize = 0;
    while i < n
        invariant
            n == cs.len(),
            cs@ == s@,
            i <= n,
            out@ + reshape_from(cs@, i as int) == reshape_spec(cs@),
        decreases n - i,
    {
        let c = cs[i];
        let ghost before = out@;
        // lam-alef ligature
        if c == LAM {
            if let Some(p) = letter_pos(&cs, i + 1) {
                proof {
                    lemma_letter_pos_bounds(cs@, i + 1);
                }
                if let Some((iso, fin)) = lam_alef(cs[p]) {
                    let jp = match prev_letter(&cs, i) {
                        Some(q) => joins_left(q),
                        None => false,
                    };
                    push_char(&mut out, if jp { fin } else { iso });
                    assert(out@ + reshape_from(cs@, p + 1) == before + reshape_from(
                        cs@,
                        i as int,
                    ));
                    i = p + 1;
                    continue;
                }
            }
        }
        let form = match forms(c) {
            Some(f) => {
                let jp = match prev_letter(&cs, i) {
                    Some(q) => joins_left(q),
                    None => false,
                };
                let jn = f.dual && match next_letter(&cs, i) {
                    Some(q) => joins_right(q),
                    None => false,
                };
                if f.dual {
                    if jp && jn {
                        f.medial
                    } else if !jp && jn {
                        f.initial
                    } else if jp && !jn {
                        f.fin
                    } else {
                        f.isolated
                    }
                } else if jp {
                    f.fin
                } else {
                    f.isolated
                }
            },
            None => c,
        };
        assert(form == contextual_form(cs@, i as int));
        push_char(&mut out, form);
        assert(ligature_at(cs@, i as int) is None);
        assert(out@ + reshape_from(cs@, i + 1) == before + reshape_from(cs@, i as int));
        i += 1;
    }
    out
}


// ---------------------------------------------------------------------------
// Direction
// ---------------------------------------------------------------------------

/// Bidi class of a character: left-to-right, right-to-left or neutral.
#[derive(Clone, Copy, PartialEq, Eq, Structural)]
pub enum Dir {
    L,
    R,
    N,
}

/// ASCII letters and digits.
pub open spec fn ascii_alnum(c: char) -> bool {
    let u = c as u32;
    (0x30 <= u <= 0x39) || (0x41 <= u <= 0x5A) || (0x61 <= u <= 0x7A)
}

/// ASCII alphanumerics and Latin-1/Latin Extended letters are strong LTR,
/// Arabic script is strong RTL, everything else is neutral.
pub open spec fn dir_of(c: char) -> Dir {
    if ascii_alnum(c) || (0xC0 <= (c as u32) <= 0x024F) {
        Dir::L
    } else if arabic_char(c) {
        Dir::R
    } else {
        Dir::N
    }
}

fn dir(c: char) -> (d: Dir)
    ensures
        d == dir_of(c),
{
    let u = c as u32;
    if (0x30 <= u && u <= 0x39) || (0x41 <= u && u <= 0x5A) || (0x61 <= u && u <= 0x7A) || (0xC0
        <= u && u <= 0x024F) {
        Dir::L
    } else if is_arabic(c) {
        Dir::R
    } else {
        Dir::N
    }
}

/// Bidi-mirrored glyph for paired punctuation.
pub open spec fn mirror_spec(c: char) -> char {
    if c == '(' {
        ')'
    } else if c == ')' {
        '('
    } else if c == '[' {
        ']'
    } else if c == ']' {
        '['
    } else if c == '{' {
        '}'
    } else if c == '}' {
        '{'
    } else if c == '<' {
        '>'
    } else if c == '>' {
        '<'
    } else if c == '\u{00AB}' {
        '\u{00BB}'
    } else if c == '\u{00BB}' {
        '\u{00AB}'
    } else if c == '\u{2039}' {
        '\u{203A}'
    } else if c == '\u{203A}' {
        '\u{2039}'
    } else {
        c
    }
}

/// Bidi-mirrored glyph for paired punctuation (used inside RTL runs so brackets
/// point the right way).
fn mirror(c: char) -> (m: char)
    ensures
        m == mirror_spec(c),
{
    if c == '(' {
        ')'
    } else if c == ')' {
        '('
    } else if c == '[' {
        ']'
    } else if c == ']' {
        '['
    } else if c == '{' {
        '}'
    } else if c == '}' {
        '{'
    } else if c == '<' {
        '>'
    } else if c == '>' {
        '<'
    } else if c == '\u{00AB}' {
        '\u{00BB}'
    } else if c == '\u{00BB}' {
        '\u{00AB}'
    } else if c == '\u{2039}' {
        '\u{203A}'
    } else if c == '\u{203A}' {
        '\u{2039}'
    } else {
        c
    }
}

/// How many of the first `k` characters have direction `d`.
pub open spec fn count_dir(cs: Seq<char>, d: Dir, k: int) -> nat
    decreases k,
{
    if k <= 0 {
        0
    } else {
        count_dir(cs, d, k - 1) + if dir_of(cs[k - 1]) == d {
            1nat
        } else {
            0nat
        }
    }
}

/// RTL when Arabic characters are at least as common as Latin ones (and
/// there is at least one), else LTR.
pub open spec fn base_rtl_spec(cs: Seq<char>) -> bool {
    count_dir(cs, Dir::R, cs.len() as int) > 0 && count_dir(cs, Dir::R, cs.len() as int)
        >= count_dir(cs, Dir::L, cs.len() as int)
}

/// Base paragraph direction: RTL when Arabic characters are at least as common
/// as Latin ones, else LTR (so mostly-English text flows left-to-right).
pub fn base_rtl(s: &str) -> (b: bool)
    ensures
        b == base_rtl_spec(s@),
{
    let cs = chars_of(s);
    let mut l: usize = 0;
    let mut r: usize = 0;
    let mut i: usize = 0;
    while i < cs.len()
        invariant
            i <= cs.len(),
            cs@ == s@,
            l == count_dir(cs@, Dir::L, i as int),
            r == count_dir(cs@, Dir::R, i as int),
            l + r <= i,
        decreases cs.len() - i,
    {
        match dir(cs[i]) {
            Dir::L => l += 1,
            Dir::R => r += 1,
            Dir::N => {},
        }
        i += 1;
    }
    r > 0 && r >= l
}

// ---------------------------------------------------------------------------
// Reordering
// ---------------------------------------------------------------------------

/// The direction of the nearest strong (non-neutral) character before `k`.
pub open spec fn strong_before(cs: Seq<char>, k: int) -> Option<Dir>
    decreases k,
{
    if k <= 0 {
        None
    } else if dir_of(cs[k - 1]) != Dir::N {
        Some(dir_of(cs[k - 1]))
    } else {
        strong_before(cs, k - 1)
    }
}

/// The direction of the nearest strong (non-neutral) character after `k`.
pub open spec fn strong_after(cs: Seq<char>, k: int) -> Option<Dir>
    decreases cs.len() - k,
{
    if k + 1 >= cs.len() || k + 1 < 0 {
        None
    } else if dir_of(cs[k + 1]) != Dir::N {
        Some(dir_of(cs[k + 1]))
    } else {
        strong_after(cs, k + 1)
    }
}

pub open spec fn or_base(d: Option<Dir>, base: Dir) -> Dir {
    match d {
        Some(x) => x,
        None => base,
    }
}

/// The resolved direction of position `k`: strong characters keep theirs; a
/// neutral takes the direction of its strong neighbours when both sides agree
/// (the text edges count as the base direction), else the base direction.
pub open spec fn resolved_dir(cs: Seq<char>, base: Dir, k: int) -> Dir {
    let d = dir_of(cs[k]);
    if d != Dir::N {
        d
    } else {
        let b = or_base(strong_before(cs, k), base);
        let a = or_base(strong_after(cs, k), base);
        if b == a {
            b
        } else {
            base
        }
    }
}

/// Extend a run list with one character: it joins the last run when the
/// direction matches, else opens a new run.
pub open spec fn extend_runs(rs: Seq<(bool, Seq<char>)>, l: bool, c: char) -> Seq<
    (bool, Seq<char>),
> {
    if rs.len() > 0 && rs.last().0 == l {
        rs.update(rs.len() - 1, (l, rs.last().1.push(c)))
    } else {
        rs.push((l, seq![c]))
    }
}

/// The maximal same-direction runs of the first `k` characters, as
/// `(is_ltr, chars)` in logical order.
pub open spec fn runs_upto(cs: Seq<char>, base: Dir, k: int) -> Seq<(bool, Seq<char>)>
    decreases k,
{
    if k <= 0 {
        seq![]
    } else {
        extend_runs(runs_upto(cs, base, k - 1), resolved_dir(cs, base, k - 1) == Dir::L, cs[k - 1])
    }
}

/// How a run is drawn: LTR runs as they are, RTL runs reversed and mirrored.
pub open spec fn render_run(r: (bool, Seq<char>)) -> Seq<char> {
    if r.0 {
        r.1
    } else {
        r.1.reverse().map_values(|c: char| mirror_spec(c))
    }
}

/// The runs drawn one after another.
pub open spec fn concat_runs(rs: Seq<(bool, Seq<char>)>) -> Seq<char>
    decreases rs.len(),
{
    if rs.len() == 0 {
        seq![]
    } else {
        concat_runs(rs.drop_last()) + render_run(rs.last())
    }
}

pub open spec fn base_dir(base_rtl: bool) -> Dir {
    if base_rtl {
        Dir::R
    } else {
        Dir::L
    }
}

/// The display order of a logical line: runs in logical order for an LTR base,
/// in reverse order for an RTL base.
pub open spec fn reorder_spec(cs: Seq<char>, base_rtl: bool) -> Seq<char> {
    let rs = runs_upto(cs, base_dir(base_rtl), cs.len() as int);
    if base_rtl {
        concat_runs(rs.reverse())
    } else {
        concat_runs(rs)
    }
}

proof fn lemma_before_in_run(cs: Seq<char>, start: int, k: int)
    requires
        0 <= start <= k <= cs.len(),
        forall|j: int| start <= j < k ==> dir_of(#[trigger] cs[j]) == Dir::N,
    ensures
        strong_before(cs, k) == strong_before(cs, start),
    decreases k - start,
{
    if k > start {
        lemma_before_in_run(cs, start, k - 1);
    }
}

proof fn lemma_after_in_run(cs: Seq<char>, k: int, end: int)
    requires
        0 <= k < end <= cs.len(),
        forall|j: int| k < j < end ==> dir_of(#[trigger] cs[j]) == Dir::N,
        end < cs.len() ==> dir_of(cs[end]) != Dir::N,
    ensures
        strong_after(cs, k) == (if end < cs.len() {
            Some(dir_of(cs[end]))
        } else {
            None::<Dir>
        }),
    decreases end - k,
{
    if k + 1 < end {
        lemma_after_in_run(cs, k + 1, end);
    }
}

spec fn runs_view(v: Seq<(bool, Vec<char>)>) -> Seq<(bool, Seq<char>)> {
    v.map_values(|r: (bool, Vec<char>)| (r.0, r.1@))
}

/// Append a run to `out` the way it is drawn.
fn push_run(out: &mut String, l: bool, v: &Vec<char>)
    ensures
        final(out)@ == old(out)@ + render_run((l, v@)),
{
    let ghost start = out@;
    if l {
        let mut i: usize = 0;
        while i < v.len()
            invariant
                i <= v.len(),
                out@ == start + v@.take(i as int),
            decreases v.len() - i,
        {
            push_char(out, v[i]);
            assert(v@.take(i as int + 1) == v@.take(i as int).push(v@[i as int]));
            i += 1;
        }
        assert(v@.take(v.len() as int) == v@);
    } else {
        let ghost rendered = v@.reverse().map_values(|c: char| mirror_spec(c));
        let mut i: usize = v.len();
        while i > 0
            invariant
                i <= v.len(),
                rendered == v@.reverse().map_values(|c: char| mirror_spec(c)),
                out@ == start + rendered.take(v.len() - i),
            decreases i,
        {
            let m = mirror(v[i - 1]);
            push_char(out, m);
            assert(rendered.take(v.len() - i + 1) == rendered.take(v.len() - i).push(m));
            i -= 1;
        }
        assert(rendered.take(v.len() as int) == rendered);
    }
}

/// Reorder a (reshaped) logical line for display. `base_rtl` sets the paragraph
/// direction; opposite-direction runs are flipped in place (Latin kept readable,
/// Arabic reversed + mirrored).
pub fn reorder(s: &str, base_rtl: bool) -> (out: String)
    ensures
        out@ == reorder_spec(s@, base_rtl),
{
    let cs = chars_of(s);
    let n = cs.len();
    if n == 0 {
        assert(runs_upto(s@, base_dir(base_rtl), 0) == Seq::<(bool, Seq<char>)>::empty());
        assert(runs_upto(s@, base_dir(base_rtl), 0).reverse() =~= Seq::<
            (bool, Seq<char>),
        >::empty());
        return String::new();
    }
    let base = if base_rtl {
        Dir::R
    } else {
        Dir::L
    };
    let ghost g = cs@;
    // classify every character
    let mut cls: Vec<Dir> = Vec::new();
    let mut k: usize = 0;
    while k < n
        invariant
            n == cs.len(),
            k <= n,
            cls.len() == k,
            forall|j: int| 0 <= j < k ==> cls@[j] == dir_of(#[trigger] g[j]),
            g == cs@,
        decreases n - k,
    {
        cls.push(dir(cs[k]));
        k += 1;
    }
    // resolve neutrals: keep the surrounding direction only when both sides
    // agree, otherwise fall back to the base direction.
    let mut res: Vec<bool> = Vec::new();
    let mut i: usize = 0;
    while i < n
        invariant
            n == cs.len(),
            n == cls.len(),
            g == cs@,
            base == base_dir(base_rtl),
            forall|j: int| 0 <= j < n ==> cls@[j] == dir_of(#[trigger] g[j]),
            i <= n,
            res.len() == i,
            forall|j: int| 0 <= j < i ==> res@[j] == (resolved_dir(g, base, j) == Dir::L),
            0 < i < n ==> (dir_of(g[i - 1]) != Dir::N || dir_of(g[i as int]) != Dir::N),
        decreases n - i,
    {
        if cls[i] == Dir::N {
            let start = i;
            while i < n && cls[i] == Dir::N
                invariant
                    n == cls.len(),
                    start <= i <= n,
                    g.len() == n,
                    forall|j: int| 0 <= j < n ==> cls@[j] == dir_of(#[trigger] g[j]),
                    forall|j: int| start <= j < i ==> dir_of(#[trigger] g[j]) == Dir::N,
                decreases n - i,
            {
                i += 1;
            }
            let before = if start == 0 {
                base
            } else {
                cls[start - 1]
            };
            let after = if i >= n {
                base
            } else {
                cls[i]
            };
            let resolved = if before == after {
                before
            } else {
                base
            };
            let mut k: usize = start;
            while k < i
                invariant
                    n == cs.len(),
                    start <= k <= i <= n,
                    start < i,
                    res.len() == k,
                    g == cs@,
                    forall|j: int| start <= j < i ==> dir_of(#[trigger] g[j]) == Dir::N,
                    i < n ==> dir_of(g[i as int]) != Dir::N,
                    start > 0 ==> dir_of(g[start - 1]) != Dir::N,
                    before == (if start == 0 {
                        base
                    } else {
                        dir_of(g[start - 1])
                    }),
                    after == (if i >= n {
                        base
                    } else {
                        dir_of(g[i as int])
                    }),
                    resolved == (if before == after {
                        before
                    } else {
                        base
                    }),
                    forall|j: int| 0 <= j < k ==> res@[j] == (resolved_dir(g, base, j) == Dir::L),
                decreases i - k,
            {
                proof {
                    lemma_before_in_run(g, start as int, k as int);
                    lemma_after_in_run(g, k as int, i as int);
                    assert(resolved_dir(g, base, k as int) == resolved);
                }
                res.push(resolved == Dir::L);
                k += 1;
            }
        } else {
            res.push(cls[i] == Dir::L);
            i += 1;
        }
    }
    // group into maximal L / R runs
    let mut runs: Vec<(bool, Vec<char>)> = Vec::new();
    let mut cur: Vec<char> = Vec::new();
    let mut cur_l: bool = false;
    let mut k: usize = 0;
    while k < n
        invariant
            n == cs.len(),
            n == res.len(),
            g == cs@,
            k <= n,
            forall|j: int| 0 <= j < n ==> res@[j] == (resolved_dir(g, base, j) == Dir::L),
            k == 0 ==> runs.len() == 0 && cur@.len() == 0,
            k > 0 ==> runs_view(runs@).push((cur_l, cur@)) == runs_upto(g, base, k as int),
        decreases n - k,
    {
        let l = res[k];
        let c = cs[k];
        let ghost prev = runs_upto(g, base, k as int);
        if k > 0 && cur_l == l {
            let ghost old_cur = cur@;
            cur.push(c);
            proof {
                assert(prev.last() == (cur_l, old_cur));
                assert(runs_view(runs@).push((cur_l, cur@)) =~= extend_runs(prev, l, c));
            }
        } else {
            if k > 0 {
                let mut finished: Vec<char> = Vec::new();
                std::mem::swap(&mut finished, &mut cur);
                runs.push((cur_l, finished));
                proof {
                    assert(runs_view(runs@) =~= prev);
                }
            } else {
                assert(prev =~= Seq::<(bool, Seq<char>)>::empty());
            }
            cur.push(c);
            cur_l = l;
            proof {
                assert(cur@ =~= seq![c]);
                assert(runs_view(runs@).push((cur_l, cur@)) =~= extend_runs(prev, l, c));
            }
        }
        k += 1;
    }
    runs.push((cur_l, cur));
    let ghost rs = runs_upto(g, base, n as int);
    assert(runs_view(runs@) =~= rs);
    // RTL base → emit runs right-to-left; LTR base → left-to-right.
    let mut out = String::new();
    if base_rtl {
        let mut j: usize = runs.len();
        while j > 0
            invariant
                j <= runs.len(),
                runs_view(runs@) == rs,
                out@ == concat_runs(rs.subrange(j as int, rs.len() as int).reverse()),
            decreases j,
        {
            let ghost before = out@;
            push_run(&mut out, runs[j - 1].0, &runs[j - 1].1);
            proof {
                let a = rs.subrange(j - 1, rs.len() as int).reverse();
                let b = rs.subrange(j as int, rs.len() as int).reverse();
                assert(a.drop_last() =~= b);
                assert(a.last() == rs[j - 1]);
            }
            j -= 1;
        }
        assert(rs.subrange(0, rs.len() as int) =~= rs);
    } else {
        let mut j: usize = 0;
        while j < runs.len()
            invariant
                j <= runs.len(),
                runs_view(runs@) == rs,
                out@ == concat_runs(rs.take(j as int)),
            decreases runs.len() - j,
        {
            push_run(&mut out, runs[j].0, &runs[j].1);
            proof {
                assert(rs.take(j + 1).drop_last() =~= rs.take(j as int));
            }
            j += 1;
        }
        assert(rs.take(rs.len() as int) =~= rs);
    }
    out
}

// ---------------------------------------------------------------------------
// Shaping one line
// ---------------------------------------------------------------------------

/// One logical line prepared for display: reshaped, then reordered by its own
/// base direction.
pub open spec fn shape_line_spec(s: Seq<char>, shape: bool) -> Seq<char> {
    if shape {
        reorder_spec(reshape_spec(s), base_rtl_spec(s))
    } else {
        s
    }
}

/// Shape one logical line for terminal display (reshape + reorder by base dir).
/// `shape == false` returns the raw logical string untouched — for terminals
/// that shape Arabic themselves.
pub fn shape_line(s: &str, shape: bool) -> (out: String)
    ensures
        out@ == shape_line_spec(s@, shape),
{
    if shape {
        let r = reshape(s);
        reorder(r.as_str(), base_rtl(s))
    } else {
        let cs = chars_of(s);
        string_of(cs.as_slice())
    }
}

/// Single-field convenience: shape `s` for display only when `shape` is on and
/// `s` actually contains Arabic, else return it unchanged.
pub fn shaped(s: &str, shape: bool) -> (out: String)
    ensures
        out@ == (if shape && has_arabic(s@) {
            shape_line_spec(s@, true)
        } else {
            s@
        }),
{
    if shape && contains_arabic(s) {
        shape_line(s, true)
    } else {
        let cs = chars_of(s);
        string_of(cs.as_slice())
    }
}

// ---------------------------------------------------------------------------
// Word wrapping by display width
// ---------------------------------------------------------------------------

/// A character's column count (control characters count as zero).
pub open spec fn cw(c: char) -> nat {
    match char_width(c) {
        Some(w) => w as nat,
        None => 0,
    }
}

/// A narrow (single-column) alphanumeric — the only kind hyphenated across a
/// hard word break.
pub open spec fn hyphenatable(c: char) -> bool {
    char_width(c) == Some(1usize) && alphanumeric(c)
}

fn col_width(c: char) -> (w: usize)
    ensures
        w == cw(c),
{
    match width_of_char(c) {
        Some(w) => w,
        None => 0,
    }
}

fn is_hyphenatable(c: char) -> (b: bool)
    ensures
        b == hyphenatable(c),
{
    match width_of_char(c) {
        Some(w) => w == 1 && is_alphanumeric(c),
        None => false,
    }
}

/// The maximal runs of characters that are not separators, from position `i`
/// on, `cur` being the run collected so far.
pub open spec fn tokens_from(p: Seq<char>, sep: spec_fn(char) -> bool, i: int, cur: Seq<char>) -> Seq<
    Seq<char>,
>
    decreases p.len() - i,
{
    if i >= p.len() || i < 0 {
        if cur.len() > 0 {
            seq![cur]
        } else {
            seq![]
        }
    } else if sep(p[i]) {
        (if cur.len() > 0 {
            seq![cur]
        } else {
            seq![]
        }) + tokens_from(p, sep, i + 1, seq![])
    } else {
        tokens_from(p, sep, i + 1, cur.push(p[i]))
    }
}

/// Whitespace-separated words (what `str::split_whitespace` yields).
pub open spec fn split_words(p: Seq<char>) -> Seq<Seq<char>> {
    tokens_from(p, |c: char| white_space(c), 0, seq![])
}

/// Space-separated words, empty ones dropped.
pub open spec fn space_words(p: Seq<char>) -> Seq<Seq<char>> {
    tokens_from(p, |c: char| c == ' ', 0, seq![])
}

/// The pieces between occurrences of `sep`, empty pieces kept (what
/// `str::split` yields).
pub open spec fn pieces_from(t: Seq<char>, sep: char, i: int, cur: Seq<char>) -> Seq<Seq<char>>
    decreases t.len() - i,
{
    if i >= t.len() || i < 0 {
        seq![cur]
    } else if t[i] == sep {
        seq![cur] + pieces_from(t, sep, i + 1, seq![])
    } else {
        pieces_from(t, sep, i + 1, cur.push(t[i]))
    }
}

/// A run of `n` spaces.
pub open spec fn spaces(n: nat) -> Seq<char> {
    Seq::new(n, |i: int| ' ')
}

/// Hard-break a word wider than the line, from character `i` on: full segments
/// are flushed as lines (a break between two narrow letters gets a trailing
/// hyphen), and the trailing partial segment is returned with its width.
pub open spec fn break_from(cs: Seq<char>, width: nat, i: int, seg: Seq<char>, seg_w: nat) -> (
    Seq<Seq<char>>,
    Seq<char>,
    nat,
)
    decreases cs.len() - i, if seg_w > 0 {
        1int
    } else {
        0int
    },
{
    if i >= cs.len() || i < 0 {
        (seq![], seg, seg_w)
    } else {
        let c = cs[i];
        let w = cw(c);
        let reserve: nat = if hyphenatable(c) && i + 1 < cs.len() && hyphenatable(cs[i + 1]) {
            1
        } else {
            0
        };
        if seg_w > 0 && seg_w + w + reserve > width {
            let flushed = if seg_w < width && hyphenatable(c) && seg.len() > 0 && hyphenatable(
                seg.last(),
            ) {
                seg.push('-')
            } else {
                seg
            };
            let r = break_from(cs, width, i, seq![], 0);
            (seq![flushed] + r.0, r.1, r.2)
        } else {
            break_from(cs, width, i + 1, seg.push(c), seg_w + w)
        }
    }
}

/// How many leading characters fit in `room` columns beside a reserved hyphen
/// column.
pub open spec fn fit_count(cs: Seq<char>, room: int, i: int, head_w: int) -> int
    decreases cs.len() - i,
{
    if i >= cs.len() || i < 0 {
        i
    } else if head_w + cw(cs[i]) + 1 > room {
        i
    } else {
        fit_count(cs, room, i + 1, head_w + cw(cs[i]))
    }
}

/// Split a word for a mid-line break so a `-`-terminated head fits in `room`
/// columns, keeping at least two characters on each side and breaking only
/// between two narrow letters.
pub open spec fn try_hyphenate_spec(cs: Seq<char>, room: int) -> Option<(Seq<char>, Seq<char>)> {
    if room <= 2 || cs.len() < 4 {
        None
    } else {
        let split = fit_count(cs, room, 0, 0);
        if split < 2 || cs.len() - split < 2 || !hyphenatable(cs[split - 1]) || !hyphenatable(
            cs[split],
        ) {
            None
        } else {
            Some((cs.take(split).push('-'), cs.skip(split)))
        }
    }
}

/// Total number of characters in a word list.
pub open spec fn total_len(ws: Seq<Seq<char>>) -> nat
    decreases ws.len(),
{
    if ws.len() == 0 {
        0
    } else {
        ws[0].len() + total_len(ws.drop_first())
    }
}

/// Start a fresh line with `word`: whole when it fits, else hard-broken.
/// Returns the lines flushed, the current line and its width.
pub open spec fn place_word(word: Seq<char>, width: nat) -> (Seq<Seq<char>>, Seq<char>, nat) {
    if display_width(word) <= width {
        (seq![], word, display_width(word) as nat)
    } else {
        break_from(word, width, 0, seq![], 0)
    }
}

pub proof fn lemma_fit_count_bounds(cs: Seq<char>, room: int, i: int, head_w: int)
    requires
        0 <= i <= cs.len(),
    ensures
        i <= fit_count(cs, room, i, head_w) <= cs.len(),
    decreases cs.len() - i,
{
    if i < cs.len() && head_w + cw(cs[i]) + 1 <= room {
        lemma_fit_count_bounds(cs, room, i + 1, head_w + cw(cs[i]));
    }
}

pub proof fn lemma_total_len_cons(w: Seq<char>, rest: Seq<Seq<char>>)
    ensures
        total_len(seq![w] + rest) == w.len() + total_len(rest),
{
    assert((seq![w] + rest).drop_first() =~= rest);
}

/// Greedy word-wrap of one paragraph's words by display width, continuing a
/// current line `cur` of width `cur_w`. A word that does not fit moves to a
/// fresh line — unless `fill` is set and it can be hyphenated to pack the
/// current line. Returns every line, the last (possibly partial) one included.
pub open spec fn wrap_para(ws: Seq<Seq<char>>, width: nat, fill: bool, cur: Seq<char>, cur_w: nat) -> Seq<
    Seq<char>,
>
    decreases total_len(ws) + ws.len(),
{
    if ws.len() == 0 {
        seq![cur]
    } else {
        let word = ws[0];
        let rest = ws.drop_first();
        let ww = display_width(word) as nat;
        if cur_w == 0 {
            let p = place_word(word, width);
            p.0 + wrap_para(rest, width, fill, p.1, p.2)
        } else if cur_w + 1 + ww <= width {
            wrap_para(rest, width, fill, cur + seq![' '] + word, cur_w + 1 + ww)
        } else {
            let room: int = if width >= cur_w + 1 {
                width - (cur_w + 1)
            } else {
                0
            };
            let h = if fill {
                try_hyphenate_spec(word, room)
            } else {
                None
            };
            match h {
                Some((head, tail)) => {
                    proof {
                        lemma_fit_count_bounds(word, room, 0, 0);
                        lemma_total_len_cons(tail, rest);
                    }
                    seq![cur + seq![' '] + head] + wrap_para(seq![tail] + rest, width, fill, seq![], 0)
                },
                None => {
                    let p = place_word(word, width);
                    seq![cur] + p.0 + wrap_para(rest, width, fill, p.1, p.2)
                },
            }
        }
    }
}

/// Wrap every paragraph (the text split on `\n`) and concatenate their lines.
pub open spec fn wrap_paras(ps: Seq<Seq<char>>, width: nat, fill: bool) -> Seq<Seq<char>>
    decreases ps.len(),
{
    if ps.len() == 0 {
        seq![]
    } else {
        wrap_paras(ps.drop_last(), width, fill) + wrap_para(
            split_words(ps.last()),
            width,
            fill,
            seq![],
            0,
        )
    }
}

/// Greedy word-wrap of a whole text by display width.
pub open spec fn word_wrap_spec(text: Seq<char>, width: nat, fill: bool) -> Seq<Seq<char>> {
    wrap_paras(pieces_from(text, '\n', 0, seq![]), width, fill)
}

/// The columns a sequence takes, character by character.
pub open spec fn sum_cw(s: Seq<char>) -> nat
    decreases s.len(),
{
    if s.len() == 0 {
        0
    } else {
        sum_cw(s.drop_last()) + cw(s.last())
    }
}

/// Every character of `s` occurs in `t`.
pub open spec fn chars_in(s: Seq<char>, t: Seq<char>) -> bool {
    forall|k: int| 0 <= k < s.len() ==> t.contains(#[trigger] s[k])
}

/// `unicode_width` measures every string made of `text`'s characters as the
/// sum of their widths (true unless the text holds sequences it measures as a
/// whole, such as emoji joined by zero-width joiners).
pub open spec fn measured_additively(text: Seq<char>) -> bool {
    forall|s: Seq<char>| chars_in(s, text) ==> #[trigger] display_width(s) == sum_cw(s)
}

proof fn lemma_sum_cw_concat(a: Seq<char>, b: Seq<char>)
    ensures
        sum_cw(a + b) == sum_cw(a) + sum_cw(b),
    decreases b.len(),
{
    if b.len() > 0 {
        assert((a + b).drop_last() =~= a + b.drop_last());
        lemma_sum_cw_concat(a, b.drop_last());
    } else {
        assert(a + b =~= a);
    }
}

proof fn lemma_sum_cw_push(a: Seq<char>, c: char)
    ensures
        sum_cw(a.push(c)) == sum_cw(a) + cw(c),
{
    assert(a.push(c).drop_last() =~= a);
}

/// A hard break never makes a line wider than `width` columns, provided no
/// single character is.
proof fn lemma_break_fits(cs: Seq<char>, width: nat, i: int, seg: Seq<char>, seg_w: nat)
    requires
        0 <= i <= cs.len(),
        width >= 1,
        seg_w == sum_cw(seg),
        seg_w <= width,
        cw('-') == 1,
        forall|k: int| 0 <= k < cs.len() ==> cw(#[trigger] cs[k]) <= width,
    ensures
        ({
            let r = break_from(cs, width, i, seg, seg_w);
            &&& forall|j: int| 0 <= j < r.0.len() ==> sum_cw(#[trigger] r.0[j]) <= width
            &&& r.2 == sum_cw(r.1)
            &&& r.2 <= width
        }),
    decreases cs.len() - i, if seg_w > 0 {
        1int
    } else {
        0int
    },
{
    if i < cs.len() {
        let c = cs[i];
        let w = cw(c);
        let reserve: nat = if hyphenatable(c) && i + 1 < cs.len() && hyphenatable(cs[i + 1]) {
            1
        } else {
            0
        };
        if seg_w > 0 && seg_w + w + reserve > width {
            let flushed = if seg_w < width && hyphenatable(c) && seg.len() > 0 && hyphenatable(
                seg.last(),
            ) {
                seg.push('-')
            } else {
                seg
            };
            lemma_sum_cw_push(seg, '-');
            assert(sum_cw(Seq::<char>::empty()) == 0);
            lemma_break_fits(cs, width, i, seq![], 0);
            let r = break_from(cs, width, i, seq![], 0);
            assert forall|j: int| 0 <= j < (seq![flushed] + r.0).len() implies sum_cw(
                #[trigger] (seq![flushed] + r.0)[j],
            ) <= width by {
                if j > 0 {
                    assert((seq![flushed] + r.0)[j] == r.0[j - 1]);
                }
            }
        } else {
            lemma_sum_cw_push(seg, c);
            lemma_break_fits(cs, width, i + 1, seg.push(c), seg_w + w);
        }
    }
}

/// The leading characters `fit_count` keeps leave a column for the hyphen.
proof fn lemma_fit_count_room(cs: Seq<char>, room: int, i: int, head_w: int)
    requires
        0 <= i <= cs.len(),
        head_w == sum_cw(cs.take(i)),
        head_w + 1 <= room,
    ensures
        sum_cw(cs.take(fit_count(cs, room, i, head_w))) + 1 <= room,
    decreases cs.len() - i,
{
    if i < cs.len() && head_w + cw(cs[i]) + 1 <= room {
        assert(cs.take(i + 1) =~= cs.take(i).push(cs[i]));
        lemma_sum_cw_push(cs.take(i), cs[i]);
        lemma_fit_count_room(cs, room, i + 1, head_w + cw(cs[i]));
    }
}

/// Placing a word on a fresh line keeps every line within the width.
proof fn lemma_place_fits(word: Seq<char>, width: nat, text: Seq<char>)
    requires
        width >= 1,
        cw('-') == 1,
        chars_in(word, text),
        measured_additively(text),
        forall|k: int| 0 <= k < text.len() ==> cw(#[trigger] text[k]) <= width,
    ensures
        ({
            let p = place_word(word, width);
            &&& forall|j: int| 0 <= j < p.0.len() ==> sum_cw(#[trigger] p.0[j]) <= width
            &&& p.2 == sum_cw(p.1)
            &&& p.2 <= width
        }),
{
    assert(display_width(word) == sum_cw(word));
    if display_width(word) > width {
        assert forall|k: int| 0 <= k < word.len() implies cw(#[trigger] word[k]) <= width by {
            let t = choose|t: int| 0 <= t < text.len() && text[t] == word[k];
            assert(cw(text[t]) <= width);
        }
        assert(sum_cw(Seq::<char>::empty()) == 0);
        lemma_break_fits(word, width, 0, seq![], 0);
    }
}

proof fn lemma_wrap_para_fits(
    ws: Seq<Seq<char>>,
    width: nat,
    fill: bool,
    cur: Seq<char>,
    cur_w: nat,
    text: Seq<char>,
)
    requires
        width >= 1,
        cur_w == sum_cw(cur),
        cur_w <= width,
        cw(' ') == 1,
        cw('-') == 1,
        forall|k: int| 0 <= k < ws.len() ==> chars_in(#[trigger] ws[k], text),
        measured_additively(text),
        forall|k: int| 0 <= k < text.len() ==> cw(#[trigger] text[k]) <= width,
    ensures
        forall|j: int|
            0 <= j < wrap_para(ws, width, fill, cur, cur_w).len() ==> sum_cw(
                #[trigger] wrap_para(ws, width, fill, cur, cur_w)[j],
            ) <= width,
    decreases total_len(ws) + ws.len(),
{
    let out = wrap_para(ws, width, fill, cur, cur_w);
    if ws.len() > 0 {
        let word = ws[0];
        let rest = ws.drop_first();
        assert(chars_in(word, text));
        assert forall|k: int| 0 <= k < rest.len() implies chars_in(#[trigger] rest[k], text) by {
            assert(rest[k] == ws[k + 1]);
        }
        assert(total_len(ws) == word.len() + total_len(rest)) by {
            assert(ws =~= seq![word] + rest);
            lemma_total_len_cons(word, rest);
        }
        let ww = display_width(word) as nat;
        assert(ww == sum_cw(word));
        if cur_w == 0 {
            lemma_place_fits(word, width, text);
            let p = place_word(word, width);
            lemma_wrap_para_fits(rest, width, fill, p.1, p.2, text);
            let tail = wrap_para(rest, width, fill, p.1, p.2);
            assert(out == p.0 + tail);
            assert forall|j: int| 0 <= j < out.len() implies sum_cw(#[trigger] out[j]) <= width by {
                if j >= p.0.len() {
                    assert(out[j] == tail[j - p.0.len()]);
                }
            }
        } else if cur_w + 1 + ww <= width {
            lemma_sum_cw_concat(cur, seq![' ']);
            lemma_sum_cw_concat(cur + seq![' '], word);
            assert(sum_cw(seq![' ']) == cw(' ')) by {
                assert(seq![' '].drop_last() =~= Seq::<char>::empty());
                assert(sum_cw(Seq::<char>::empty()) == 0);
            }
            lemma_wrap_para_fits(rest, width, fill, cur + seq![' '] + word, cur_w + 1 + ww, text);
            assert(out == wrap_para(rest, width, fill, cur + seq![' '] + word, cur_w + 1 + ww));
        } else {
            let room: int = if width >= cur_w + 1 {
                width - (cur_w + 1)
            } else {
                0
            };
            let h = if fill {
                try_hyphenate_spec(word, room)
            } else {
                None
            };
            match h {
                Some((head, tail)) => {
                    let split = fit_count(word, room, 0, 0);
                    assert(word.take(0) =~= Seq::<char>::empty());
                    assert(sum_cw(Seq::<char>::empty()) == 0);
                    lemma_fit_count_room(word, room, 0, 0);
                    lemma_fit_count_bounds(word, room, 0, 0);
                    assert(head == word.take(split).push('-'));
                    lemma_sum_cw_push(word.take(split), '-');
                    lemma_sum_cw_concat(cur, seq![' ']);
                    lemma_sum_cw_concat(cur + seq![' '], head);
                    assert(sum_cw(seq![' ']) == cw(' ')) by {
                        assert(seq![' '].drop_last() =~= Seq::<char>::empty());
                    }
                    let next = seq![tail] + rest;
                    assert(chars_in(tail, text)) by {
                        assert forall|k: int| 0 <= k < tail.len() implies text.contains(
                            #[trigger] tail[k],
                        ) by {
                            assert(tail[k] == word[split + k]);
                        }
                    }
                    assert forall|k: int| 0 <= k < next.len() implies chars_in(
                        #[trigger] next[k],
                        text,
                    ) by {
                        if k > 0 {
                            assert(next[k] == rest[k - 1]);
                        }
                    }
                    lemma_total_len_cons(tail, rest);
                    lemma_wrap_para_fits(next, width, fill, seq![], 0, text);
                    let more = wrap_para(next, width, fill, seq![], 0);
                    assert(out == seq![cur + seq![' '] + head] + more);
                    assert forall|j: int| 0 <= j < out.len() implies sum_cw(#[trigger] out[j])
                        <= width by {
                        if j > 0 {
                            assert(out[j] == more[j - 1]);
                        }
                    }
                },
                None => {
                    lemma_place_fits(word, width, text);
                    let p = place_word(word, width);
                    lemma_wrap_para_fits(rest, width, fill, p.1, p.2, text);
                    let more = wrap_para(rest, width, fill, p.1, p.2);
                    assert(out == seq![cur] + p.0 + more);
                    assert forall|j: int| 0 <= j < out.len() implies sum_cw(#[trigger] out[j])
                        <= width by {
                        if j > 0 && j < 1 + p.0.len() {
                            assert(out[j] == p.0[j - 1]);
                        } else if j >= 1 + p.0.len() {
                            assert(out[j] == more[j - 1 - p.0.len()]);
                        }
                    }
                },
            }
        }
    } else {
        assert(out == seq![cur]);
    }
}

proof fn lemma_chars_in_trans(a: Seq<char>, b: Seq<char>, c: Seq<char>)
    requires
        chars_in(a, b),
        chars_in(b, c),
    ensures
        chars_in(a, c),
{
    assert forall|k: int| 0 <= k < a.len() implies c.contains(#[trigger] a[k]) by {
        let j = choose|j: int| 0 <= j < b.len() && b[j] == a[k];
        assert(c.contains(b[j]));
    }
}

proof fn lemma_tokens_chars_in(p: Seq<char>, sep: spec_fn(char) -> bool, i: int, cur: Seq<char>)
    requires
        chars_in(cur, p),
    ensures
        forall|k: int|
            0 <= k < tokens_from(p, sep, i, cur).len() ==> chars_in(
                #[trigger] tokens_from(p, sep, i, cur)[k],
                p,
            ),
    decreases p.len() - i,
{
    let out = tokens_from(p, sep, i, cur);
    if i >= p.len() || i < 0 {
        if cur.len() > 0 {
            assert(out == seq![cur]);
        } else {
            assert(out == Seq::<Seq<char>>::empty());
        }
    } else if sep(p[i]) {
        let first: Seq<Seq<char>> = if cur.len() > 0 {
            seq![cur]
        } else {
            seq![]
        };
        assert(chars_in(Seq::<char>::empty(), p));
        lemma_tokens_chars_in(p, sep, i + 1, seq![]);
        let more = tokens_from(p, sep, i + 1, seq![]);
        assert(out == first + more);
        assert forall|k: int| 0 <= k < out.len() implies chars_in(#[trigger] out[k], p) by {
            if k >= first.len() {
                assert(out[k] == more[k - first.len()]);
            }
        }
    } else {
        assert(chars_in(cur.push(p[i]), p)) by {
            assert forall|k: int| 0 <= k < cur.push(p[i]).len() implies p.contains(
                #[trigger] cur.push(p[i])[k],
            ) by {
                if k < cur.len() {
                    assert(cur.push(p[i])[k] == cur[k]);
                } else {
                    assert(cur.push(p[i])[k] == p[i]);
                }
            }
        }
        lemma_tokens_chars_in(p, sep, i + 1, cur.push(p[i]));
        assert(out == tokens_from(p, sep, i + 1, cur.push(p[i])));
    }
}

proof fn lemma_pieces_chars_in(t: Seq<char>, sep: char, i: int, cur: Seq<char>)
    requires
        chars_in(cur, t),
    ensures
        forall|k: int|
            0 <= k < pieces_from(t, sep, i, cur).len() ==> chars_in(
                #[trigger] pieces_from(t, sep, i, cur)[k],
                t,
            ),
    decreases t.len() - i,
{
    let out = pieces_from(t, sep, i, cur);
    if i >= t.len() || i < 0 {
        assert(out == seq![cur]);
    } else if t[i] == sep {
        assert(chars_in(Seq::<char>::empty(), t));
        lemma_pieces_chars_in(t, sep, i + 1, seq![]);
        let more = pieces_from(t, sep, i + 1, seq![]);
        assert(out == seq![cur] + more);
        assert forall|k: int| 0 <= k < out.len() implies chars_in(#[trigger] out[k], t) by {
            if k > 0 {
                assert(out[k] == more[k - 1]);
            }
        }
    } else {
        assert(chars_in(cur.push(t[i]), t)) by {
            assert forall|k: int| 0 <= k < cur.push(t[i]).len() implies t.contains(
                #[trigger] cur.push(t[i])[k],
            ) by {
                if k < cur.len() {
                    assert(cur.push(t[i])[k] == cur[k]);
                } else {
                    assert(cur.push(t[i])[k] == t[i]);
                }
            }
        }
        lemma_pieces_chars_in(t, sep, i + 1, cur.push(t[i]));
        assert(out == pieces_from(t, sep, i + 1, cur.push(t[i])));
    }
}

proof fn lemma_wrap_paras_fit(ps: Seq<Seq<char>>, width: nat, fill: bool, text: Seq<char>)
    requires
        width >= 1,
        cw(' ') == 1,
        cw('-') == 1,
        forall|k: int| 0 <= k < ps.len() ==> chars_in(#[trigger] ps[k], text),
        measured_additively(text),
        forall|k: int| 0 <= k < text.len() ==> cw(#[trigger] text[k]) <= width,
    ensures
        forall|j: int|
            0 <= j < wrap_paras(ps, width, fill).len() ==> sum_cw(
                #[trigger] wrap_paras(ps, width, fill)[j],
            ) <= width,
    decreases ps.len(),
{
    if ps.len() > 0 {
        let last = ps.last();
        assert forall|k: int| 0 <= k < ps.drop_last().len() implies chars_in(
            #[trigger] ps.drop_last()[k],
            text,
        ) by {
            assert(ps.drop_last()[k] == ps[k]);
        }
        lemma_wrap_paras_fit(ps.drop_last(), width, fill, text);
        let words = split_words(last);
        assert(chars_in(Seq::<char>::empty(), last));
        lemma_tokens_chars_in(last, |c: char| white_space(c), 0, seq![]);
        assert(chars_in(last, text));
        assert forall|k: int| 0 <= k < words.len() implies chars_in(#[trigger] words[k], text) by {
            lemma_chars_in_trans(words[k], last, text);
        }
        assert(sum_cw(Seq::<char>::empty()) == 0);
        lemma_wrap_para_fits(words, width, fill, seq![], 0, text);
        let a = wrap_paras(ps.drop_last(), width, fill);
        let b = wrap_para(words, width, fill, seq![], 0);
        let out = wrap_paras(ps, width, fill);
        assert(out == a + b);
        assert forall|j: int| 0 <= j < out.len() implies sum_cw(#[trigger] out[j]) <= width by {
            if j >= a.len() {
                assert(out[j] == b[j - a.len()]);
            } else {
                assert(out[j] == a[j]);
            }
        }
    }
}

/// Word-wrapping never makes a line wider than the width, as long as no single
/// character is wider than the width and `unicode_width` measures the text's
/// words as the sum of their characters (widths counted character by
/// character; spaces and hyphens take one column each).
pub proof fn lemma_wrapped_lines_fit(text: Seq<char>, width: nat, fill: bool)
    requires
        width >= 1,
        cw(' ') == 1,
        cw('-') == 1,
        measured_additively(text),
        forall|k: int| 0 <= k < text.len() ==> cw(#[trigger] text[k]) <= width,
    ensures
        forall|j: int|
            0 <= j < word_wrap_spec(text, width, fill).len() ==> sum_cw(
                #[trigger] word_wrap_spec(text, width, fill)[j],
            ) <= width,
{
    assert(chars_in(Seq::<char>::empty(), text));
    lemma_pieces_chars_in(text, '\n', 0, seq![]);
    lemma_wrap_paras_fit(pieces_from(text, '\n', 0, seq![]), width, fill, text);
}

/// Without shaping or justification, every displayed line fits the width (the
/// same conditions as [`lemma_wrapped_lines_fit`]).
pub proof fn lemma_display_lines_fit(text: Seq<char>, width: nat)
    requires
        width >= 1,
        cw(' ') == 1,
        cw('-') == 1,
        measured_additively(text),
        forall|k: int| 0 <= k < text.len() ==> cw(#[trigger] text[k]) <= width,
    ensures
        forall|j: int|
            0 <= j < display_lines_spec(text, width, false, false).len() ==> sum_cw(
                #[trigger] display_lines_spec(text, width, false, false)[j],
            ) <= width,
{
    lemma_wrapped_lines_fit(text, width, false);
}

spec fn lines_view(v: Seq<Vec<char>>) -> Seq<Seq<char>> {
    v.map_values(|l: Vec<char>| l@)
}

/// Split `text` on `sep`, keeping empty pieces.
fn split_on(text: &Vec<char>, sep: char) -> (ps: Vec<Vec<char>>)
    ensures
        lines_view(ps@) == pieces_from(text@, sep, 0, seq![]),
{
    let mut ps: Vec<Vec<char>> = Vec::new();
    let mut cur: Vec<char> = Vec::new();
    let mut i: usize = 0;
    while i < text.len()
        invariant
            i <= text.len(),
            lines_view(ps@) + pieces_from(text@, sep, i as int, cur@) == pieces_from(
                text@,
                sep,
                0,
                seq![],
            ),
        decreases text.len() - i,
    {
        if text[i] == sep {
            let ghost before = lines_view(ps@);
            let mut done: Vec<char> = Vec::new();
            std::mem::swap(&mut done, &mut cur);
            ps.push(done);
            assert(lines_view(ps@) =~= before.push(done@));
            assert(seq![done@] + pieces_from(text@, sep, i + 1, seq![]) == pieces_from(
                text@,
                sep,
                i as int,
                done@,
            ));
            assert(cur@ =~= seq![]);
            assert(before.push(done@) + pieces_from(text@, sep, i + 1, cur@) =~= before + (seq![
                done@,
            ] + pieces_from(text@, sep, i + 1, cur@)));
        } else {
            cur.push(text[i]);
        }
        i += 1;
    }
    let ghost before = lines_view(ps@);
    ps.push(cur);
    assert(lines_view(ps@) =~= before + seq![cur@]);
    ps
}

/// Split `p` into its maximal runs of non-separator characters, separators
/// being whitespace (`ws == true`) or the space character.
fn tokens(p: &Vec<char>, ws: bool) -> (out: Vec<Vec<char>>)
    ensures
        lines_view(out@) == (if ws {
            split_words(p@)
        } else {
            space_words(p@)
        }),
{
    let ghost sep: spec_fn(char) -> bool = if ws {
        |c: char| white_space(c)
    } else {
        |c: char| c == ' '
    };
    assert(lines_view(seq![]) =~= Seq::<Seq<char>>::empty());
    let mut out: Vec<Vec<char>> = Vec::new();
    let mut cur: Vec<char> = Vec::new();
    let mut i: usize = 0;
    while i < p.len()
        invariant
            i <= p.len(),
            sep == (if ws {
                |c: char| white_space(c)
            } else {
                |c: char| c == ' '
            }),
            lines_view(out@) + tokens_from(p@, sep, i as int, cur@) == tokens_from(
                p@,
                sep,
                0,
                seq![],
            ),
        decreases p.len() - i,
    {
        let c = p[i];
        let is_sep = if ws {
            is_white_space(c)
        } else {
            c == ' '
        };
        assert(is_sep == sep(c));
        if is_sep {
            let ghost before = lines_view(out@);
            if cur.len() > 0 {
                let mut done: Vec<char> = Vec::new();
                std::mem::swap(&mut done, &mut cur);
                out.push(done);
                assert(lines_view(out@) =~= before + seq![done@]);
            } else {
                assert(lines_view(out@) =~= before + seq![]);
            }
            assert(cur@ =~= seq![]);
        } else {
            cur.push(c);
        }
        i += 1;
    }
    let ghost before = lines_view(out@);
    if cur.len() > 0 {
        out.push(cur);
        assert(lines_view(out@) =~= before + seq![cur@]);
    } else {
        assert(lines_view(out@) =~= before + seq![]);
    }
    out
}

/// A run of `n` spaces.
fn push_spaces(out: &mut Vec<char>, n: usize)
    ensures
        final(out)@ == old(out)@ + spaces(n as nat),
{
    let ghost start = out@;
    let mut k: usize = 0;
    while k < n
        invariant
            k <= n,
            out@ == start + spaces(k as nat),
        decreases n - k,
    {
        out.push(' ');
        assert(spaces((k + 1) as nat) =~= spaces(k as nat).push(' '));
        k += 1;
    }
}

/// Hard-break a word wider than `width` display columns, pushing full lines to
/// `lines` and returning the trailing partial segment and its width. A break
/// between two narrow letters gets a trailing hyphen; wide (CJK) glyphs break
/// with none.
fn break_long_word(word: &Vec<char>, width: usize, lines: &mut Vec<Vec<char>>) -> (r: (
    Vec<char>,
    usize,
))
    ensures
        lines_view(final(lines)@) == lines_view(old(lines)@) + break_from(
            word@,
            width as nat,
            0,
            seq![],
            0,
        ).0,
        r.0@ == break_from(word@, width as nat, 0, seq![], 0).1,
        r.1 as nat == break_from(word@, width as nat, 0, seq![], 0).2,
{
    let ghost start = lines_view(lines@);
    let ghost goal = break_from(word@, width as nat, 0, seq![], 0);
    let mut seg: Vec<char> = Vec::new();
    let mut seg_w: usize = 0;
    let mut i: usize = 0;
    while i < word.len()
        invariant
            i <= word.len(),
            lines_view(lines@) + break_from(word@, width as nat, i as int, seg@, seg_w as nat).0
                == start + goal.0,
            break_from(word@, width as nat, i as int, seg@, seg_w as nat).1 == goal.1,
            break_from(word@, width as nat, i as int, seg@, seg_w as nat).2 == goal.2,
        decreases word.len() - i, if seg_w > 0 {
            1int
        } else {
            0int
        },
    {
        let c = word[i];
        let w = col_width(c);
        let reserve: usize = if is_hyphenatable(c) && i + 1 < word.len() && is_hyphenatable(
            word[i + 1],
        ) {
            1
        } else {
            0
        };
        if seg_w > 0 && (seg_w as u128) + (w as u128) + (reserve as u128) > (width as u128) {
            if seg_w < width && is_hyphenatable(c) && seg.len() > 0 && is_hyphenatable(
                seg[seg.len() - 1],
            ) {
                seg.push('-');
            }
            let ghost before = lines_view(lines@);
            let mut done: Vec<char> = Vec::new();
            std::mem::swap(&mut done, &mut seg);
            lines.push(done);
            assert(lines_view(lines@) =~= before + seq![done@]);
            seg_w = 0;
            assert(seg@ =~= seq![]);
            continue;
        }
        seg.push(c);
        seg_w = seg_w + w;
        i += 1;
    }
    (seg, seg_w)
}

/// Split `word` for a mid-line break so a `-`-terminated head fits in `room`
/// display columns, leaving the tail for the next line.
fn try_hyphenate(word: &Vec<char>, room: usize) -> (r: Option<(Vec<char>, Vec<char>)>)
    ensures
        match r {
            Some((h, t)) => try_hyphenate_spec(word@, room as int) == Some((h@, t@)),
            None => try_hyphenate_spec(word@, room as int) is None,
        },
{
    if room <= 2 {
        return None;
    }
    if word.len() < 4 {
        return None;
    }
    let mut head_w: usize = 0;
    let mut split: usize = 0;
    while split < word.len()
        invariant
            split <= word.len(),
            head_w <= room,
            fit_count(word@, room as int, 0, 0) == fit_count(
                word@,
                room as int,
                split as int,
                head_w as int,
            ),
        ensures
            split as int == fit_count(word@, room as int, 0, 0),
        decreases word.len() - split,
    {
        let w = col_width(word[split]);
        if (head_w as u128) + (w as u128) + 1 > (room as u128) {
            assert(fit_count(word@, room as int, split as int, head_w as int) == split);
            break;
        }
        head_w = head_w + w;
        split += 1;
    }
    if split < 2 || word.len() - split < 2 || !is_hyphenatable(word[split - 1])
        || !is_hyphenatable(word[split]) {
        return None;
    }
    let mut head: Vec<char> = Vec::new();
    let mut k: usize = 0;
    while k < split
        invariant
            k <= split < word.len(),
            head@ == word@.take(k as int),
        decreases split - k,
    {
        head.push(word[k]);
        assert(word@.take(k + 1) =~= word@.take(k as int).push(word@[k as int]));
        k += 1;
    }
    head.push('-');
    let mut tail: Vec<char> = Vec::new();
    let mut k: usize = split;
    while k < word.len()
        invariant
            split <= k <= word.len(),
            tail@ == word@.subrange(split as int, k as int),
        decreases word.len() - k,
    {
        tail.push(word[k]);
        assert(word@.subrange(split as int, k + 1) =~= word@.subrange(split as int, k as int).push(
            word@[k as int],
        ));
        k += 1;
    }
    assert(tail@ =~= word@.skip(split as int));
    Some((head, tail))
}

/// Start a fresh line with `word`: whole when it fits, else hard-broken.
fn place(word: Vec<char>, width: usize, lines: &mut Vec<Vec<char>>) -> (r: (Vec<char>, usize))
    ensures
        lines_view(final(lines)@) == lines_view(old(lines)@) + place_word(word@, width as nat).0,
        r.0@ == place_word(word@, width as nat).1,
        r.1 as nat == place_word(word@, width as nat).2,
{
    let ww = width_of_chars(word.as_slice());
    if ww <= width {
        assert(lines_view(lines@) =~= lines_view(lines@) + seq![]);
        (word, ww)
    } else {
        break_long_word(&word, width, lines)
    }
}

/// Append `src` to `dst`.
fn append_chars(dst: &mut Vec<char>, src: &Vec<char>)
    ensures
        final(dst)@ == old(dst)@ + src@,
{
    let ghost start = dst@;
    let mut k: usize = 0;
    while k < src.len()
        invariant
            k <= src.len(),
            dst@ == start + src@.take(k as int),
        decreases src.len() - k,
    {
        dst.push(src[k]);
        assert(src@.take(k + 1) =~= src@.take(k as int).push(src@[k as int]));
        k += 1;
    }
    assert(src@.take(src.len() as int) =~= src@);
}

/// Move the current line into `lines`, leaving `cur` empty.
fn flush(lines: &mut Vec<Vec<char>>, cur: &mut Vec<char>)
    ensures
        lines_view(final(lines)@) == lines_view(old(lines)@) + seq![old(cur)@],
        final(cur)@ == Seq::<char>::empty(),
{
    let mut done: Vec<char> = Vec::new();
    std::mem::swap(&mut done, cur);
    let ghost before = lines_view(lines@);
    lines.push(done);
    assert(lines_view(lines@) =~= before + seq![done@]);
}

/// The words still to place: a pending hyphenation tail first, then the rest.
spec fn queue_of(pending: Option<Vec<char>>, rest: Seq<Seq<char>>) -> Seq<Seq<char>> {
    match pending {
        Some(t) => seq![t@] + rest,
        None => rest,
    }
}

/// Greedy word-wrap by display width (CJK/wide glyphs count as two columns).
/// Whitespace-delimited words stay whole when they fit; a word (or a spaceless
/// CJK run) wider than the line is hard-broken. When `fill` is set, a word that
/// won't fit whole is instead hyphenated to pack the current line tight.
fn word_wrap(text: &Vec<char>, width: usize, fill: bool) -> (lines: Vec<Vec<char>>)
    ensures
        lines_view(lines@) == word_wrap_spec(text@, width as nat, fill),
{
    let paras = split_on(text, '\n');
    let ghost ps = pieces_from(text@, '\n', 0, seq![]);
    let mut lines: Vec<Vec<char>> = Vec::new();
    let mut pi: usize = 0;
    assert(lines_view(lines@) =~= wrap_paras(ps.take(0), width as nat, fill));
    while pi < paras.len()
        invariant
            pi <= paras.len(),
            lines_view(paras@) == ps,
            lines_view(lines@) == wrap_paras(ps.take(pi as int), width as nat, fill),
        decreases paras.len() - pi,
    {
        let words = tokens(&paras[pi], true);
        let ghost ws = split_words(ps[pi as int]);
        let ghost start = lines_view(lines@);
        let ghost goal = wrap_para(ws, width as nat, fill, seq![], 0);
        let mut cur: Vec<char> = Vec::new();
        let mut cur_w: usize = 0;
        let mut wi: usize = 0;
        let mut pending: Option<Vec<char>> = None;
        assert(ws.skip(0) =~= ws);
        while pending.is_some() || wi < words.len()
            invariant
                wi <= words.len(),
                lines_view(words@) == ws,
                lines_view(lines@) + wrap_para(
                    queue_of(pending, ws.skip(wi as int)),
                    width as nat,
                    fill,
                    cur@,
                    cur_w as nat,
                ) == start + goal,
            decreases total_len(queue_of(pending, ws.skip(wi as int))) + queue_of(
                pending,
                ws.skip(wi as int),
            ).len(),
        {
            let ghost queue = queue_of(pending, ws.skip(wi as int));
            let word = match pending.take() {
                Some(t) => t,
                None => {
                    let w = words[wi].clone();
                    assert(w@ == ws[wi as int]);
                    wi += 1;
                    w
                },
            };
            let ghost rest = ws.skip(wi as int);
            proof {
                assert(queue[0] == word@);
                assert(queue.drop_first() =~= rest);
                lemma_total_len_cons(word@, rest);
                assert(queue =~= seq![word@] + rest);
            }
            let ghost before = lines_view(lines@);
            let ghost cur0 = cur@;
            let ghost cw0 = cur_w as nat;
            let ww = width_of_chars(word.as_slice());
            if cur_w == 0 {
                let (c2, w2) = place(word, width, &mut lines);
                cur = c2;
                cur_w = w2;
                assert(lines_view(lines@) + wrap_para(rest, width as nat, fill, cur@, cur_w as nat)
                    =~= before + wrap_para(queue, width as nat, fill, cur0, 0));
            } else if (cur_w as u128) + 1 + (ww as u128) <= (width as u128) {
                cur.push(' ');
                append_chars(&mut cur, &word);
                cur_w = cur_w + 1 + ww;
                assert(cur@ =~= cur0 + seq![' '] + word@);
                assert(lines_view(lines@) + wrap_para(rest, width as nat, fill, cur@, cur_w as nat)
                    == before + wrap_para(queue, width as nat, fill, cur0, cw0));
            } else {
                let room: usize = if width > cur_w {
                    width - cur_w - 1
                } else {
                    0
                };
                let h = if fill {
                    try_hyphenate(&word, room)
                } else {
                    None
                };
                match h {
                    Some((head, tail)) => {
                        proof {
                            lemma_fit_count_bounds(word@, room as int, 0, 0);
                            lemma_total_len_cons(tail@, rest);
                        }
                        cur.push(' ');
                        append_chars(&mut cur, &head);
                        assert(cur@ =~= cur0 + seq![' '] + head@);
                        flush(&mut lines, &mut cur);
                        cur_w = 0;
                        pending = Some(tail);
                        assert(lines_view(lines@) + wrap_para(
                            seq![tail@] + rest,
                            width as nat,
                            fill,
                            cur@,
                            0,
                        ) =~= before + wrap_para(queue, width as nat, fill, cur0, cw0));
                    },
                    None => {
                        flush(&mut lines, &mut cur);
                        let ghost mid = lines_view(lines@);
                        let (c2, w2) = place(word, width, &mut lines);
                        cur = c2;
                        cur_w = w2;
                        assert(lines_view(lines@) + wrap_para(
                            rest,
                            width as nat,
                            fill,
                            cur@,
                            cur_w as nat,
                        ) =~= before + wrap_para(queue, width as nat, fill, cur0, cw0));
                    },
                }
            }
        }
        let ghost before = lines_view(lines@);
        lines.push(cur);
        proof {
            assert(lines_view(lines@) =~= before + seq![cur@]);
            assert(ws.skip(wi as int) =~= Seq::<Seq<char>>::empty());
            assert(ps.take(pi + 1).drop_last() =~= ps.take(pi as int));
        }
        pi += 1;
    }
    assert(ps.take(ps.len() as int) =~= ps);
    lines
}
// ---------------------------------------------------------------------------
// Justification and the full display pass
// ---------------------------------------------------------------------------

/// Sum of the display widths of a word list.
pub open spec fn sum_widths(ws: Seq<Seq<char>>) -> nat
    decreases ws.len(),
{
    if ws.len() == 0 {
        0
    } else {
        sum_widths(ws.drop_last()) + display_width(ws.last()) as nat
    }
}

/// The first `k` words, each followed (except the last of the line) by its
/// gap: `base` spaces, plus one for each of the leftmost `extra` gaps.
pub open spec fn join_padded(ws: Seq<Seq<char>>, gaps: int, base: nat, extra: nat, k: int) -> Seq<
    char,
>
    decreases k,
{
    if k <= 0 {
        seq![]
    } else {
        join_padded(ws, gaps, base, extra, k - 1) + ws[k - 1] + if k - 1 < gaps {
            spaces(
                base + if k - 1 < extra {
                    1nat
                } else {
                    0nat
                },
            )
        } else {
            seq![]
        }
    }
}

/// Space-justify one wrapped line to `width` columns by spreading the padding
/// over the gaps between its words (leftmost gaps take any remainder). Lines
/// with one word, lines already at/over width, and lines that would need more
/// than two spaces per gap are left as they are.
pub open spec fn justify_spec(line: Seq<char>, width: nat) -> Seq<char> {
    let ws = space_words(line);
    if ws.len() < 2 {
        line
    } else {
        let tw = sum_widths(ws);
        if tw >= width {
            line
        } else {
            let gaps: nat = (ws.len() - 1) as nat;
            let pad: nat = (width - tw) as nat;
            if pad / gaps + (if pad % gaps == 0 {
                0nat
            } else {
                1nat
            }) > 2 {
                line
            } else {
                join_padded(ws, gaps as int, pad / gaps, pad % gaps, ws.len() as int)
            }
        }
    }
}

pub proof fn lemma_sum_widths_prefix(ws: Seq<Seq<char>>, k: int)
    requires
        0 <= k <= ws.len(),
    ensures
        sum_widths(ws.take(k)) <= sum_widths(ws),
    decreases ws.len() - k,
{
    if k < ws.len() {
        lemma_sum_widths_prefix(ws, k + 1);
        assert(ws.take(k + 1).drop_last() =~= ws.take(k));
    } else {
        assert(ws.take(k) =~= ws);
    }
}

/// The columns the gaps after the first `k` words of a justified line take.
spec fn gaps_upto(k: int, gaps: int, base: nat, extra: nat) -> nat
    decreases k,
{
    if k <= 0 {
        0
    } else {
        gaps_upto(k - 1, gaps, base, extra) + if k - 1 < gaps {
            base + if k - 1 < extra {
                1nat
            } else {
                0nat
            }
        } else {
            0nat
        }
    }
}

proof fn lemma_gaps_upto(k: int, gaps: int, base: nat, extra: nat)
    requires
        0 <= k <= gaps,
        extra <= gaps,
    ensures
        gaps_upto(k, gaps, base, extra) == k * base + if k < extra {
            k
        } else {
            extra as int
        },
    decreases k,
{
    if k > 0 {
        lemma_gaps_upto(k - 1, gaps, base, extra);
        assert((k - 1) * base + base == k * base) by (nonlinear_arith);
        let step: nat = base + if k - 1 < extra {
            1nat
        } else {
            0nat
        };
        assert(gaps_upto(k, gaps, base, extra) == gaps_upto(k - 1, gaps, base, extra) + step);
    } else {
        assert(gaps_upto(0, gaps, base, extra) == 0);
    }
}

proof fn lemma_sum_cw_spaces(n: nat)
    requires
        cw(' ') == 1,
    ensures
        sum_cw(spaces(n)) == n,
    decreases n,
{
    if n > 0 {
        assert(spaces(n).drop_last() =~= spaces((n - 1) as nat));
        lemma_sum_cw_spaces((n - 1) as nat);
    } else {
        assert(spaces(n) =~= Seq::<char>::empty());
    }
}

proof fn lemma_join_padded_width(ws: Seq<Seq<char>>, gaps: int, base: nat, extra: nat, k: int)
    requires
        0 <= k <= ws.len(),
        cw(' ') == 1,
        forall|j: int| 0 <= j < ws.len() ==> display_width(#[trigger] ws[j]) == sum_cw(ws[j]),
    ensures
        sum_cw(join_padded(ws, gaps, base, extra, k)) == sum_widths(ws.take(k)) + gaps_upto(
            k,
            gaps,
            base,
            extra,
        ),
    decreases k,
{
    if k > 0 {
        lemma_join_padded_width(ws, gaps, base, extra, k - 1);
        let prev = join_padded(ws, gaps, base, extra, k - 1);
        let pad: Seq<char> = if k - 1 < gaps {
            spaces(
                base + if k - 1 < extra {
                    1nat
                } else {
                    0nat
                },
            )
        } else {
            seq![]
        };
        lemma_sum_cw_concat(prev, ws[k - 1]);
        lemma_sum_cw_concat(prev + ws[k - 1], pad);
        if k - 1 < gaps {
            lemma_sum_cw_spaces(
                base + if k - 1 < extra {
                    1nat
                } else {
                    0nat
                },
            );
        } else {
            assert(sum_cw(pad) == 0);
        }
        assert(ws.take(k).drop_last() =~= ws.take(k - 1));
        assert(ws.take(k).last() == ws[k - 1]);
    } else {
        assert(ws.take(0) =~= Seq::<Seq<char>>::empty());
    }
}

/// A line that justification changes comes out exactly `width` columns wide
/// (its words measured as the sum of their characters, a space taking one
/// column).
pub proof fn lemma_justified_line_fills(line: Seq<char>, width: nat)
    requires
        cw(' ') == 1,
        forall|j: int|
            0 <= j < space_words(line).len() ==> display_width(#[trigger] space_words(line)[j])
                == sum_cw(space_words(line)[j]),
    ensures
        justify_spec(line, width) != line ==> sum_cw(justify_spec(line, width)) == width,
{
    let ws = space_words(line);
    if ws.len() >= 2 && sum_widths(ws) < width {
        let tw = sum_widths(ws);
        let gaps: nat = (ws.len() - 1) as nat;
        let pad: nat = (width - tw) as nat;
        let base = pad / gaps;
        let extra = pad % gaps;
        lemma_join_padded_width(ws, gaps as int, base, extra, ws.len() as int);
        assert(ws.take(ws.len() as int) =~= ws);
        vstd::arithmetic::div_mod::lemma_fundamental_div_mod(pad as int, gaps as int);
        lemma_gaps_upto(gaps as int, gaps as int, base, extra);
        assert(gaps_upto(ws.len() as int, gaps as int, base, extra) == gaps_upto(
            gaps as int,
            gaps as int,
            base,
            extra,
        ));
        assert(gaps * base + extra == pad) by {
            assert(gaps * (pad / gaps) == (pad / gaps) * gaps) by (nonlinear_arith);
        }
    }
}

/// Space-justify one already-wrapped line to `width` display columns.
fn justify_line(line: &Vec<char>, width: usize) -> (out: Vec<char>)
    ensures
        out@ == justify_spec(line@, width as nat),
{
    let words = tokens(line, false);
    let ghost ws = space_words(line@);
    if words.len() < 2 {
        return line.clone();
    }
    if width == 0 {
        return line.clone();
    }
    let mut tw: usize = 0;
    let mut k: usize = 0;
    while k < words.len()
        invariant
            k <= words.len(),
            lines_view(words@) == ws,
            tw as nat == sum_widths(ws.take(k as int)),
            tw < width,
            words.len() >= 2,
            ws == space_words(line@),
        decreases words.len() - k,
    {
        let w = width_of_chars(words[k].as_slice());
        proof {
            assert(ws.take(k + 1).drop_last() =~= ws.take(k as int));
            assert(words@[k as int]@ == ws[k as int]);
        }
        if w >= width - tw {
            proof {
                assert(ws.take(k + 1).last() == ws[k as int]);
                assert(sum_widths(ws.take(k + 1)) == tw + w);
                lemma_sum_widths_prefix(ws, k + 1);
                assert(sum_widths(ws) >= width);
                assert(ws.len() >= 2);
                assert(justify_spec(line@, width as nat) == line@);
            }
            return line.clone();
        }
        tw = tw + w;
        k += 1;
    }
    proof {
        assert(ws.take(ws.len() as int) =~= ws);
    }
    assert(words.len() == ws.len());
    let gaps: usize = words.len() - 1;
    let pad: usize = width - tw;
    let base: usize = pad / gaps;
    let extra: usize = pad % gaps;
    let up: usize = if extra == 0 {
        0
    } else {
        1
    };
    if base > 2 || base + up > 2 {
        return line.clone();
    }
    assert(base as nat == (pad as nat) / (gaps as nat));
    assert(extra as nat == (pad as nat) % (gaps as nat));
    let mut out: Vec<char> = Vec::new();
    let mut i: usize = 0;
    while i < words.len()
        invariant
            i <= words.len(),
            lines_view(words@) == ws,
            gaps == words.len() - 1,
            base <= 2,
            out@ == join_padded(ws, gaps as int, base as nat, extra as nat, i as int),
        decreases words.len() - i,
    {
        assert(words@[i as int]@ == ws[i as int]);
        append_chars(&mut out, &words[i]);
        if i < gaps {
            let n = if i < extra {
                base + 1
            } else {
                base
            };
            push_spaces(&mut out, n);
        } else {
            assert(out@ =~= out@ + Seq::<char>::empty());
        }
        i += 1;
    }
    out
}

/// What the display pass makes of a text: wrapped to `width` columns (at least
/// one); LTR text (or any text when shaping is off) is optionally justified on
/// every line but the last, Arabic text is shaped line by line and, for an RTL
/// paragraph, right-aligned.
pub open spec fn display_lines_spec(text: Seq<char>, width: nat, shape: bool, justify: bool) -> Seq<
    Seq<char>,
> {
    let w: nat = if width < 1 {
        1
    } else {
        width
    };
    let is_ltr = !shape || !has_arabic(text);
    let wrapped = word_wrap_spec(text, w, justify && is_ltr);
    if is_ltr {
        if justify {
            Seq::new(
                wrapped.len(),
                |i: int|
                    if i + 1 < wrapped.len() {
                        justify_spec(wrapped[i], w)
                    } else {
                        wrapped[i]
                    },
            )
        } else {
            wrapped
        }
    } else {
        let rtl = base_rtl_spec(text);
        Seq::new(
            wrapped.len(),
            |i: int|
                {
                    let sh = reorder_spec(reshape_spec(wrapped[i]), rtl);
                    if rtl {
                        spaces(
                            if w >= display_width(sh) {
                                (w - display_width(sh)) as nat
                            } else {
                                0
                            },
                        ) + sh
                    } else {
                        sh
                    }
                },
        )
    }
}

/// Word-wrap `text` to `width` (display columns), shape each line, and align by
/// base direction: RTL paragraphs are right-aligned, LTR (mostly-English) are
/// left-aligned. When `justify` is set, LTR lines are space-justified to the full
/// width (except the last, ragged line). `shape == false` only wraps (no
/// reshape/reorder), leaving Arabic to the terminal's own shaper.
pub fn display_lines(text: &str, width: usize, shape: bool, justify: bool) -> (out: Vec<String>)
    ensures
        out.len() == display_lines_spec(text@, width as nat, shape, justify).len(),
        forall|i: int|
            0 <= i < out.len() ==> #[trigger] out[i]@ == display_lines_spec(
                text@,
                width as nat,
                shape,
                justify,
            )[i],
{
    let ghost spec = display_lines_spec(text@, width as nat, shape, justify);
    let width: usize = if width < 1 {
        1
    } else {
        width
    };
    let tcs = chars_of(text);
    let is_ltr = !shape || !contains_arabic(text);
    let wrapped = word_wrap(&tcs, width, justify && is_ltr);
    let n = wrapped.len();
    let mut out: Vec<String> = Vec::new();
    if is_ltr {
        let mut i: usize = 0;
        while i < n
            invariant
                n == wrapped.len(),
                i <= n,
                out.len() == i,
                spec.len() == n,
                forall|j: int| 0 <= j < i ==> #[trigger] out[j]@ == spec[j],
                lines_view(wrapped@) == word_wrap_spec(text@, width as nat, justify && is_ltr),
                is_ltr == (!shape || !has_arabic(text@)),
                is_ltr,
                spec == display_lines_spec(text@, width as nat, shape, justify),
                width >= 1,
            decreases n - i,
        {
            assert(wrapped@[i as int]@ == lines_view(wrapped@)[i as int]);
            let line = if justify && i + 1 < n {
                justify_line(&wrapped[i], width)
            } else {
                wrapped[i].clone()
            };
            proof {
                let wr = word_wrap_spec(text@, width as nat, justify && is_ltr);
                assert(wr.len() == n);
                assert(wr[i as int] == wrapped@[i as int]@);
                if justify {
                    assert(spec[i as int] == (if i + 1 < wr.len() {
                        justify_spec(wr[i as int], width as nat)
                    } else {
                        wr[i as int]
                    }));
                } else {
                    assert(spec[i as int] == wr[i as int]);
                }
            }
            assert(line@ == spec[i as int]);
            out.push(string_of(line.as_slice()));
            i += 1;
        }
    } else {
        let rtl = base_rtl(text);
        let mut i: usize = 0;
        while i < n
            invariant
                n == wrapped.len(),
                i <= n,
                out.len() == i,
                spec.len() == n,
                forall|j: int| 0 <= j < i ==> #[trigger] out[j]@ == spec[j],
                lines_view(wrapped@) == word_wrap_spec(text@, width as nat, justify && is_ltr),
                is_ltr == (!shape || !has_arabic(text@)),
                !is_ltr,
                rtl == base_rtl_spec(text@),
                spec == display_lines_spec(text@, width as nat, shape, justify),
                width >= 1,
            decreases n - i,
        {
            assert(wrapped@[i as int]@ == lines_view(wrapped@)[i as int]);
            let logical = string_of(wrapped[i].as_slice());
            let joined = reshape(logical.as_str());
            let shaped = reorder(joined.as_str(), rtl);
            let ghost sh = reorder_spec(reshape_spec(wrapped@[i as int]@), rtl);
            assert(shaped@ == sh);
            if rtl {
                let scs = chars_of(shaped.as_str());
                let w = width_of_chars(scs.as_slice());
                let pad: usize = if width >= w {
                    width - w
                } else {
                    0
                };
                let mut line: Vec<char> = Vec::new();
                push_spaces(&mut line, pad);
                append_chars(&mut line, &scs);
                assert(spec[i as int] == spaces(pad as nat) + sh);
                out.push(string_of(line.as_slice()));
            } else {
                assert(spec[i as int] == sh);
                out.push(shaped);
            }
            i += 1;
        }
    }
    out
}

// ---------------------------------------------------------------------------
// Laws
// ---------------------------------------------------------------------------

/// A presentation form from the Arabic Presentation Forms-B block.
pub open spec fn presentation_form(c: char) -> bool {
    0xFE70 <= (c as u32) <= 0xFEFF
}

proof fn lemma_forms_are_presentation(c: char)
    ensures
        letter_forms(c) matches Some(f) ==> presentation_form(f.1) && presentation_form(f.2)
            && presentation_form(f.3) && presentation_form(f.4),
        lam_alef_forms(c) matches Some(f) ==> presentation_form(f.0) && presentation_form(f.1),
{
}

proof fn lemma_reshape_from_presentation(cs: Seq<char>, i: int)
    requires
        forall|j: int| 0 <= j < cs.len() ==> (#[trigger] letter_forms(cs[j])) is Some,
    ensures
        forall|j: int|
            0 <= j < reshape_from(cs, i).len() ==> presentation_form(
                #[trigger] reshape_from(cs, i)[j],
            ),
    decreases cs.len() - i,
{
    if i >= cs.len() || i < 0 {
    } else {
        lemma_letter_pos_bounds(cs, i + 1);
        lemma_forms_are_presentation(cs[i]);
        match ligature_at(cs, i) {
            Some((p, f)) => {
                lemma_forms_are_presentation(cs[p]);
                lemma_reshape_from_presentation(cs, p + 1);
                let g = if joins_prev(cs, i) {
                    f.1
                } else {
                    f.0
                };
                assert(presentation_form(g));
                let r = reshape_from(cs, i);
                assert(r == seq![g] + reshape_from(cs, p + 1));
                assert forall|j: int| 0 <= j < r.len() implies presentation_form(#[trigger] r[j]) by {
                    if j > 0 {
                        assert(r[j] == reshape_from(cs, p + 1)[j - 1]);
                    }
                }
            },
            None => {
                lemma_reshape_from_presentation(cs, i + 1);
                let g = contextual_form(cs, i);
                assert(letter_forms(cs[i]) is Some);
                assert(presentation_form(g));
                let r = reshape_from(cs, i);
                assert(r == seq![g] + reshape_from(cs, i + 1));
                assert forall|j: int| 0 <= j < r.len() implies presentation_form(#[trigger] r[j]) by {
                    if j > 0 {
                        assert(r[j] == reshape_from(cs, i + 1)[j - 1]);
                    }
                }
            },
        }
    }
}

/// Every character of a pure-Arabic word (each one a joining letter) comes out
/// of reshaping as a presentation form.
pub proof fn lemma_reshape_yields_presentation_forms(cs: Seq<char>)
    requires
        forall|j: int| 0 <= j < cs.len() ==> (#[trigger] letter_forms(cs[j])) is Some,
    ensures
        forall|j: int|
            0 <= j < reshape_spec(cs).len() ==> presentation_form(#[trigger] reshape_spec(cs)[j]),
{
    lemma_reshape_from_presentation(cs, 0);
}

proof fn lemma_all_ltr_single_run(cs: Seq<char>, base: Dir, k: int)
    requires
        0 < k <= cs.len(),
        forall|j: int| 0 <= j < cs.len() ==> resolved_dir(cs, base, j) == Dir::L,
    ensures
        runs_upto(cs, base, k) == seq![(true, cs.take(k))],
    decreases k,
{
    assert(resolved_dir(cs, base, k - 1) == Dir::L);
    if k > 1 {
        lemma_all_ltr_single_run(cs, base, k - 1);
        let rs = runs_upto(cs, base, k - 1);
        assert(rs.last() == (true, cs.take(k - 1)));
        assert(cs.take(k - 1).push(cs[k - 1]) =~= cs.take(k));
        assert(extend_runs(rs, true, cs[k - 1]) == rs.update(0, (true, cs.take(k))));
        assert(rs.update(0, (true, cs.take(k))) =~= seq![(true, cs.take(k))]);
    } else {
        assert(runs_upto(cs, base, 0) == Seq::<(bool, Seq<char>)>::empty());
        assert(seq![cs[0]] =~= cs.take(1));
        assert(Seq::<(bool, Seq<char>)>::empty().push((true, seq![cs[0]])) =~= seq![
            (true, cs.take(1)),
        ]);
    }
}

/// When every position resolves left-to-right, reordering leaves the line as
/// it is, whatever the base direction.
pub proof fn lemma_reorder_all_ltr_identity(cs: Seq<char>, base_rtl: bool)
    requires
        forall|j: int| 0 <= j < cs.len() ==> resolved_dir(cs, base_dir(base_rtl), j) == Dir::L,
    ensures
        reorder_spec(cs, base_rtl) == cs,
{
    let base = base_dir(base_rtl);
    if cs.len() == 0 {
        assert(runs_upto(cs, base, 0).reverse() =~= Seq::<(bool, Seq<char>)>::empty());
        assert(cs =~= Seq::<char>::empty());
    } else {
        lemma_all_ltr_single_run(cs, base, cs.len() as int);
        let rs = runs_upto(cs, base, cs.len() as int);
        assert(cs.take(cs.len() as int) =~= cs);
        assert(rs.reverse() =~= rs);
        assert(rs.drop_last() =~= Seq::<(bool, Seq<char>)>::empty());
        assert(concat_runs(rs.drop_last()) == Seq::<char>::empty());
        assert(rs.last() == (true, cs));
        assert(concat_runs(rs) =~= cs);
    }
}

proof fn lemma_no_rtl_before(cs: Seq<char>, k: int)
    requires
        0 <= k <= cs.len(),
        forall|j: int| 0 <= j < cs.len() ==> dir_of(#[trigger] cs[j]) != Dir::R,
    ensures
        strong_before(cs, k) matches Some(d) ==> d == Dir::L,
    decreases k,
{
    if k > 0 {
        lemma_no_rtl_before(cs, k - 1);
    }
}

proof fn lemma_no_rtl_after(cs: Seq<char>, k: int)
    requires
        -1 <= k < cs.len(),
        forall|j: int| 0 <= j < cs.len() ==> dir_of(#[trigger] cs[j]) != Dir::R,
    ensures
        strong_after(cs, k) matches Some(d) ==> d == Dir::L,
    decreases cs.len() - k,
{
    if k + 1 < cs.len() {
        lemma_no_rtl_after(cs, k + 1);
    }
}

proof fn lemma_before_some(cs: Seq<char>, k: int)
    requires
        0 < k <= cs.len(),
        dir_of(cs[0]) != Dir::N,
    ensures
        strong_before(cs, k) is Some,
    decreases k,
{
    if k > 1 && dir_of(cs[k - 1]) == Dir::N {
        lemma_before_some(cs, k - 1);
    }
}

proof fn lemma_after_some(cs: Seq<char>, k: int)
    requires
        0 <= k < cs.len() - 1,
        dir_of(cs[cs.len() - 1]) != Dir::N,
    ensures
        strong_after(cs, k) is Some,
    decreases cs.len() - k,
{
    if k + 2 < cs.len() && dir_of(cs[k + 1]) == Dir::N {
        lemma_after_some(cs, k + 1);
    }
}

/// Text with no right-to-left characters keeps its logical order under a
/// left-to-right base.
pub proof fn lemma_reorder_ltr_text_unchanged(cs: Seq<char>)
    requires
        forall|j: int| 0 <= j < cs.len() ==> dir_of(#[trigger] cs[j]) != Dir::R,
    ensures
        reorder_spec(cs, false) == cs,
{
    assert forall|j: int| 0 <= j < cs.len() implies resolved_dir(cs, base_dir(false), j)
        == Dir::L by {
        lemma_no_rtl_before(cs, j);
        lemma_no_rtl_after(cs, j);
        assert(dir_of(cs[j]) != Dir::R);
    }
    lemma_reorder_all_ltr_identity(cs, false);
}

/// Latin text (no right-to-left characters) that starts and ends with a strong
/// left-to-right character keeps its logical order even under a right-to-left
/// base: every neutral inside it sits between left-to-right neighbours.
pub proof fn lemma_reorder_latin_runs_stay_in_order(cs: Seq<char>)
    requires
        cs.len() > 0,
        forall|j: int| 0 <= j < cs.len() ==> dir_of(#[trigger] cs[j]) != Dir::R,
        dir_of(cs[0]) == Dir::L,
        dir_of(cs[cs.len() - 1]) == Dir::L,
    ensures
        reorder_spec(cs, true) == cs,
{
    assert forall|j: int| 0 <= j < cs.len() implies resolved_dir(cs, base_dir(true), j)
        == Dir::L by {
        lemma_no_rtl_before(cs, j);
        lemma_no_rtl_after(cs, j);
        assert(dir_of(cs[j]) != Dir::R);
        if dir_of(cs[j]) == Dir::N {
            assert(j != 0);
            assert(j != cs.len() - 1);
            lemma_before_some(cs, j);
            lemma_after_some(cs, j);
        }
    }
    lemma_reorder_all_ltr_identity(cs, true);
}

/// A character outside the Arabic blocks has no contextual forms.
proof fn lemma_no_forms(c: char)
    requires
        !arabic_char(c),
    ensures
        letter_forms(c) is None,
{
}

/// Reshaping leaves text without Arabic as it is, from any position on.
proof fn lemma_reshape_non_arabic(cs: Seq<char>, i: int)
    requires
        !has_arabic(cs),
        0 <= i <= cs.len(),
    ensures
        reshape_from(cs, i) == cs.skip(i),
    decreases cs.len() - i,
{
    if i < cs.len() {
        lemma_reshape_non_arabic(cs, i + 1);
        assert(!arabic_char(cs[i]));
        lemma_no_forms(cs[i]);
        assert(cs[i] != LAM);
        assert(cs.skip(i) =~= seq![cs[i]] + cs.skip(i + 1));
    } else {
        assert(cs.skip(i) =~= Seq::<char>::empty());
    }
}

/// Text without right-to-left characters never gets a right-to-left base.
proof fn lemma_no_rtl_count(cs: Seq<char>, k: int)
    requires
        0 <= k <= cs.len(),
        !has_arabic(cs),
    ensures
        count_dir(cs, Dir::R, k) == 0,
    decreases k,
{
    if k > 0 {
        lemma_no_rtl_count(cs, k - 1);
        assert(!arabic_char(cs[k - 1]));
    }
}

/// Text with no Arabic is never reshaped or reordered, whatever its
/// punctuation: shaping it for display gives it back unchanged, as does the
/// raw mode.
pub proof fn lemma_non_arabic_text_unchanged(cs: Seq<char>)
    requires
        !has_arabic(cs),
    ensures
        shape_line_spec(cs, true) == cs,
        shape_line_spec(cs, false) == cs,
{
    lemma_reshape_non_arabic(cs, 0);
    assert(cs.skip(0) =~= cs);
    lemma_no_rtl_count(cs, cs.len() as int);
    assert forall|j: int| 0 <= j < cs.len() implies dir_of(#[trigger] cs[j]) != Dir::R by {
        assert(!arabic_char(cs[j]));
    }
    lemma_reorder_ltr_text_unchanged(cs);
}

/// The runs of an all right-to-left stretch `a` followed by an all
/// left-to-right stretch `b`, up to position `k`.
proof fn lemma_runs_of_rtl_then_ltr(a: Seq<char>, b: Seq<char>, base: Dir, k: int)
    requires
        a.len() > 0,
        forall|i: int| 0 <= i < a.len() ==> dir_of(#[trigger] a[i]) == Dir::R,
        forall|i: int| 0 <= i < b.len() ==> dir_of(#[trigger] b[i]) == Dir::L,
        1 <= k <= a.len() + b.len(),
    ensures
        k <= a.len() ==> runs_upto(a + b, base, k) == seq![(false, a.take(k))],
        k > a.len() ==> runs_upto(a + b, base, k) == seq![
            (false, a),
            (true, b.take(k - a.len())),
        ],
    decreases k,
{
    let cs = a + b;
    if k == 1 {
        assert(cs[0] == a[0]);
        assert(runs_upto(cs, base, 0) == Seq::<(bool, Seq<char>)>::empty());
        assert(a.take(1) =~= seq![a[0]]);
    } else {
        lemma_runs_of_rtl_then_ltr(a, b, base, k - 1);
        let c = cs[k - 1];
        if k <= a.len() {
            assert(c == a[k - 1]);
            assert(a.take(k) =~= a.take(k - 1).push(c));
        } else if k == a.len() + 1 {
            assert(c == b[0]);
            assert(a.take(k - 1) =~= a);
            assert(b.take(1) =~= seq![b[0]]);
        } else {
            assert(c == b[k - 1 - a.len()]);
            assert(b.take(k - a.len()) =~= b.take(k - 1 - a.len()).push(c));
        }
    }
}

/// Under a right-to-left base the runs of a line are laid out from right to
/// left: an Arabic stretch followed by a Latin one shows the Latin run first,
/// then the Arabic run read backwards. Under a left-to-right base the runs
/// stay in logical order, the Arabic one still read backwards.
pub proof fn lemma_rtl_base_lays_runs_right_to_left(a: Seq<char>, b: Seq<char>)
    requires
        a.len() > 0,
        b.len() > 0,
        forall|i: int| 0 <= i < a.len() ==> dir_of(#[trigger] a[i]) == Dir::R,
        forall|i: int| 0 <= i < b.len() ==> dir_of(#[trigger] b[i]) == Dir::L,
    ensures
        reorder_spec(a + b, true) == b + a.reverse(),
        reorder_spec(a + b, false) == a.reverse() + b,
{
    let n: int = (a.len() + b.len()) as int;
    assert((a + b).len() == n);
    lemma_runs_of_rtl_then_ltr(a, b, Dir::R, n);
    lemma_runs_of_rtl_then_ltr(a, b, Dir::L, n);
    assert(b.take(b.len() as int) =~= b);
    let rs = seq![(false, a), (true, b)];
    assert forall|i: int| 0 <= i < a.reverse().len() implies mirror_spec(
        #[trigger] a.reverse()[i],
    ) == a.reverse()[i] by {
        assert(dir_of(a[a.len() - 1 - i]) == Dir::R);
    }
    assert(a.reverse().map_values(|c: char| mirror_spec(c)) =~= a.reverse());
    assert(rs.reverse() =~= seq![(true, b), (false, a)]);
    assert(rs.reverse().drop_last() =~= seq![(true, b)]);
    assert(seq![(true, b)].drop_last() =~= Seq::<(bool, Seq<char>)>::empty());
    assert(rs.drop_last() =~= seq![(false, a)]);
    assert(seq![(false, a)].drop_last() =~= Seq::<(bool, Seq<char>)>::empty());
    assert(concat_runs(Seq::<(bool, Seq<char>)>::empty()) =~= Seq::<char>::empty());
    assert(seq![(true, b)].last() == (true, b));
    assert(seq![(false, a)].last() == (false, a));
    assert(render_run((true, b)) == b);
    assert(concat_runs(seq![(true, b)]) =~= b);
    assert(concat_runs(seq![(false, a)]) =~= a.reverse());
}

/// A letter of the joining table is no diacritic, and a dual-joining one is
/// no alef (so it never closes a lam-alef ligature).
proof fn lemma_table_letter_facts(c: char)
    requires
        letter_forms(c) is Some,
    ensures
        !diacritic(c),
        joins_left_spec(c) ==> lam_alef_forms(c) is None,
{
}

/// The initial presentation form of a letter of the joining table.
pub open spec fn initial_form(c: char) -> char {
    match letter_forms(c) {
        Some((_, _, _, ini, _)) => ini,
        None => c,
    }
}

/// The final presentation form of a letter of the joining table.
pub open spec fn final_form(c: char) -> char {
    match letter_forms(c) {
        Some((_, _, fin, _, _)) => fin,
        None => c,
    }
}

/// The medial presentation form of a letter of the joining table.
pub open spec fn medial_form(c: char) -> char {
    match letter_forms(c) {
        Some((_, _, _, _, med)) => med,
        None => c,
    }
}

/// The presentation form each letter of a word made only of dual-joining
/// letters must take: initial first, final last, medial in between.
pub open spec fn dual_word_form(w: Seq<char>, j: int) -> char {
    if j == 0 {
        initial_form(w[j])
    } else if j == w.len() - 1 {
        final_form(w[j])
    } else {
        medial_form(w[j])
    }
}

proof fn lemma_dual_word_from(w: Seq<char>, i: int)
    requires
        w.len() >= 2,
        forall|j: int| 0 <= j < w.len() ==> #[trigger] joins_left_spec(w[j]),
        0 <= i <= w.len(),
    ensures
        reshape_from(w, i) =~= Seq::new((w.len() - i) as nat, |k: int| dual_word_form(w, i + k)),
    decreases w.len() - i,
{
    if i < w.len() {
        lemma_dual_word_from(w, i + 1);
        assert(joins_left_spec(w[i]));
        lemma_table_letter_facts(w[i]);
        if i > 0 {
            assert(joins_left_spec(w[i - 1]));
            lemma_table_letter_facts(w[i - 1]);
            assert(prev_letter_spec(w, i) == Some(w[i - 1]));
        }
        if i + 1 < w.len() {
            assert(joins_left_spec(w[i + 1]));
            lemma_table_letter_facts(w[i + 1]);
            assert(letter_pos_from(w, i + 1) == Some(i + 1));
            assert(next_letter_spec(w, i) == Some(w[i + 1]));
        } else {
            assert(letter_pos_from(w, i + 1) is None);
        }
        assert(ligature_at(w, i) is None);
        assert(contextual_form(w, i) == dual_word_form(w, i));
    }
}

/// Letters that join on both sides connect into one word: in a word of
/// dual-joining letters (such as beh-seen-meem) the first letter takes its
/// initial form, the last its final form, and every letter in between its
/// medial form, one glyph per letter.
pub proof fn lemma_dual_letters_join_into_one_word(w: Seq<char>)
    requires
        w.len() >= 2,
        forall|j: int| 0 <= j < w.len() ==> #[trigger] joins_left_spec(w[j]),
    ensures
        reshape_spec(w).len() == w.len(),
        reshape_spec(w)[0] == initial_form(w[0]),
        reshape_spec(w)[w.len() - 1] == final_form(w[w.len() - 1]),
        forall|j: int| 0 < j < w.len() - 1 ==> reshape_spec(w)[j] == medial_form(#[trigger] w[j]),
{
    lemma_dual_word_from(w, 0);
}

/// The isolated presentation form of a letter of the joining table.
pub open spec fn isolated_form(c: char) -> char {
    match letter_forms(c) {
        Some((_, iso, _, _, _)) => iso,
        None => c,
    }
}

/// The form a letter of a plain word takes: it joins its predecessor when
/// that one can connect onward, and its successor when it can itself connect
/// onward and is not last; both gives the medial form, only the successor
/// the initial, only the predecessor the final, neither the isolated form.
pub open spec fn word_letter_form(w: Seq<char>, j: int) -> char {
    let jp = j > 0 && joins_left_spec(w[j - 1]);
    let jn = joins_left_spec(w[j]) && j < w.len() - 1;
    if jp && jn {
        medial_form(w[j])
    } else if jn {
        initial_form(w[j])
    } else if jp {
        final_form(w[j])
    } else {
        isolated_form(w[j])
    }
}

/// A plain word: every character a letter of the joining table, and no lam
/// directly followed by an alef (which would form a ligature).
pub open spec fn plain_word(w: Seq<char>) -> bool {
    &&& forall|j: int| 0 <= j < w.len() ==> (#[trigger] letter_forms(w[j])) is Some
    &&& forall|j: int|
        0 <= j < w.len() - 1 && w[j] == LAM ==> lam_alef_forms(#[trigger] w[j + 1]) is None
}

proof fn lemma_plain_word_from(w: Seq<char>, i: int)
    requires
        plain_word(w),
        0 <= i <= w.len(),
    ensures
        reshape_from(w, i) =~= Seq::new((w.len() - i) as nat, |k: int| word_letter_form(w, i + k)),
    decreases w.len() - i,
{
    if i < w.len() {
        lemma_plain_word_from(w, i + 1);
        assert(letter_forms(w[i]) is Some);
        lemma_table_letter_facts(w[i]);
        if i > 0 {
            assert(letter_forms(w[i - 1]) is Some);
            lemma_table_letter_facts(w[i - 1]);
            assert(prev_letter_spec(w, i) == Some(w[i - 1]));
        } else {
            assert(prev_letter_spec(w, i) is None);
        }
        if i + 1 < w.len() {
            assert(letter_forms(w[i + 1]) is Some);
            lemma_table_letter_facts(w[i + 1]);
            assert(letter_pos_from(w, i + 1) == Some(i + 1));
            assert(next_letter_spec(w, i) == Some(w[i + 1]));
            if w[i] == LAM {
                assert(lam_alef_forms(w[i + 1]) is None);
            }
        } else {
            assert(letter_pos_from(w, i + 1) is None);
        }
        assert(ligature_at(w, i) is None);
        assert(contextual_form(w, i) == word_letter_form(w, i));
    }
}

/// Reshaping a plain word gives one glyph per letter, each letter taking
/// the form that matches how it connects to its neighbours (see
/// `word_letter_form`).
pub proof fn lemma_plain_word_shapes_by_neighbours(w: Seq<char>)
    requires
        plain_word(w),
    ensures
        reshape_spec(w).len() == w.len(),
        forall|j: int| 0 <= j < w.len() ==> #[trigger] reshape_spec(w)[j] == word_letter_form(w, j),
{
    lemma_plain_word_from(w, 0);
}

/// The isolated lam-alef ligature for an alef.
pub open spec fn ligature_isolated(alef: char) -> char {
    match lam_alef_forms(alef) {
        Some((iso, _)) => iso,
        None => alef,
    }
}

/// A lam directly followed by an alef becomes one ligature glyph: its
/// isolated form when nothing joins the lam from before.
pub proof fn lemma_lam_alef_is_one_glyph(alef: char)
    requires
        lam_alef_forms(alef) is Some,
    ensures
        reshape_spec(seq![LAM, alef]) == seq![ligature_isolated(alef)],
{
    let w = seq![LAM, alef];
    assert(!diacritic(alef));
    assert(letter_pos_from(w, 1) == Some(1int));
    assert(prev_letter_spec(w, 0) is None);
    assert(ligature_at(w, 0) == Some((1int, lam_alef_forms(alef)->0)));
    assert(reshape_from(w, 2) == Seq::<char>::empty());
}

proof fn lemma_rtl_before(cs: Seq<char>, k: int)
    requires
        1 <= k <= cs.len(),
        dir_of(cs[0]) == Dir::R,
        forall|j: int| 0 <= j < cs.len() ==> dir_of(#[trigger] cs[j]) != Dir::L,
    ensures
        strong_before(cs, k) == Some(Dir::R),
    decreases k,
{
    if k > 1 && dir_of(cs[k - 1]) == Dir::N {
        lemma_rtl_before(cs, k - 1);
    }
}

proof fn lemma_rtl_after(cs: Seq<char>, k: int)
    requires
        0 <= k < cs.len() - 1,
        dir_of(cs[cs.len() - 1]) == Dir::R,
        forall|j: int| 0 <= j < cs.len() ==> dir_of(#[trigger] cs[j]) != Dir::L,
    ensures
        strong_after(cs, k) == Some(Dir::R),
    decreases cs.len() - k,
{
    if k + 2 < cs.len() && dir_of(cs[k + 1]) == Dir::N {
        lemma_rtl_after(cs, k + 1);
    }
}

proof fn lemma_rtl_single_run(cs: Seq<char>, base: Dir, k: int)
    requires
        1 <= k <= cs.len(),
        forall|j: int| 0 <= j < cs.len() ==> #[trigger] resolved_dir(cs, base, j) == Dir::R,
    ensures
        runs_upto(cs, base, k) == seq![(false, cs.take(k))],
    decreases k,
{
    if k == 1 {
        assert(runs_upto(cs, base, 0) == Seq::<(bool, Seq<char>)>::empty());
        assert(cs.take(1) =~= seq![cs[0]]);
        assert(resolved_dir(cs, base, 0) == Dir::R);
    } else {
        lemma_rtl_single_run(cs, base, k - 1);
        assert(resolved_dir(cs, base, k - 1) == Dir::R);
        assert(cs.take(k) =~= cs.take(k - 1).push(cs[k - 1]));
    }
}

/// A right-to-left line (Arabic at both ends, nothing left-to-right in it)
/// is shown read backwards whatever the base direction, with the paired
/// punctuation inside it mirrored so brackets still enclose what they did.
pub proof fn lemma_rtl_line_reads_backwards_mirrored(cs: Seq<char>, base_rtl: bool)
    requires
        cs.len() > 0,
        dir_of(cs[0]) == Dir::R,
        dir_of(cs[cs.len() - 1]) == Dir::R,
        forall|j: int| 0 <= j < cs.len() ==> dir_of(#[trigger] cs[j]) != Dir::L,
    ensures
        reorder_spec(cs, base_rtl) == cs.reverse().map_values(|c: char| mirror_spec(c)),
{
    let base = base_dir(base_rtl);
    assert forall|j: int| 0 <= j < cs.len() implies #[trigger] resolved_dir(cs, base, j)
        == Dir::R by {
        if dir_of(cs[j]) == Dir::N {
            assert(j != 0 && j != cs.len() - 1);
            lemma_rtl_before(cs, j);
            lemma_rtl_after(cs, j);
        }
    }
    lemma_rtl_single_run(cs, base, cs.len() as int);
    assert(cs.take(cs.len() as int) =~= cs);
    let rs = seq![(false, cs)];
    assert(rs.reverse() =~= rs);
    assert(rs.drop_last() =~= Seq::<(bool, Seq<char>)>::empty());
    assert(concat_runs(Seq::<(bool, Seq<char>)>::empty()) =~= Seq::<char>::empty());
    assert(rs.last() == (false, cs));
    assert(concat_runs(rs) =~= cs.reverse().map_values(|c: char| mirror_spec(c)));
}

/// Mirroring swaps each paired bracket with its partner and undoing it
/// restores the character: every other character is left as it is.
pub proof fn lemma_mirror_swaps_pairs(c: char)
    ensures
        mirror_spec(mirror_spec(c)) == c,
        c == '(' ==> mirror_spec(c) == ')',
        c == '[' ==> mirror_spec(c) == ']',
        c == '{' ==> mirror_spec(c) == '}',
        c == '<' ==> mirror_spec(c) == '>',
        c == '\u{00AB}' ==> mirror_spec(c) == '\u{00BB}',
        c == '\u{2039}' ==> mirror_spec(c) == '\u{203A}',
        dir_of(c) != Dir::N ==> mirror_spec(c) == c,
{
}

} // verus!
