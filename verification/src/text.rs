//! Small verified helpers for moving between `&str`/`String` and `char` vectors.

use vstd::prelude::*;
use crate::unicode::{is_white_space, white_space};

verus! {

/// Appends one `char` to a `String`.
///
/// Wraps `String::push`, whose documentation states that it appends the given
/// char to the end of the string; the contract says exactly that of the view.
#[verifier::external_body]
pub(crate) fn push_char(s: &mut String, c: char)
    ensures
        final(s)@ == old(s)@.push(c),
{
    s.push(c);
}

/// The characters of `s`, in order.
pub fn chars_of(s: &str) -> (v: Vec<char>)
    ensures
        v@ == s@,
{
    broadcast use vstd::string::axiom_spec_iter;
    let mut v: Vec<char> = Vec::new();
    for c in it: s.chars()
        invariant
            v@ == it.seq().take(it.index() as int),
            it.seq() == s@,
    {
        v.push(c);
    }
    v
}

/// A `String` holding exactly the characters of `cs`.
pub fn string_of(cs: &[char]) -> (s: String)
    ensures
        s@ == cs@,
{
    let mut s = String::new();
    let mut i: usize = 0;
    while i < cs.len()
        invariant
            i <= cs.len(),
            s@ == cs@.take(i as int),
        decreases cs.len() - i,
    {
        push_char(&mut s, cs[i]);
        assert(cs@.take(i as int + 1) == cs@.take(i as int).push(cs@[i as int]));
        i += 1;
    }
    assert(cs@.take(cs.len() as int) == cs@);
    s
}

/// Whether two character sequences are equal, element by element.
pub fn chars_eq(a: &[char], b: &[char]) -> (r: bool)
    ensures
        r == (a@ == b@),
{
    if a.len() != b.len() {
        return false;
    }
    let mut i: usize = 0;
    while i < a.len()
        invariant
            i <= a.len(),
            a.len() == b.len(),
            forall|j: int| 0 <= j < i ==> a@[j] == b@[j],
        decreases a.len() - i,
    {
        if a[i] != b[i] {
            return false;
        }
        i += 1;
    }
    assert(a@ =~= b@);
    true
}

/// Whether two strings hold the same characters.
pub fn str_eq(a: &str, b: &str) -> (r: bool)
    ensures
        r == (a@ == b@),
{
    let x = chars_of(a);
    let y = chars_of(b);
    chars_eq(x.as_slice(), y.as_slice())
}


/// `p` is a prefix of `s`.
pub open spec fn has_prefix(s: Seq<char>, p: Seq<char>) -> bool {
    p.len() <= s.len() && s.subrange(0, p.len() as int) == p
}

/// `p` occurs in `s` at position `i`.
pub open spec fn occurs_at(s: Seq<char>, p: Seq<char>, i: int) -> bool {
    0 <= i && i + p.len() <= s.len() && s.subrange(i, i + p.len()) == p
}

/// `p` occurs somewhere in `s` (the empty pattern occurs everywhere).
pub open spec fn has_infix(s: Seq<char>, p: Seq<char>) -> bool {
    exists|i: int| #[trigger] occurs_at(s, p, i)
}

/// Whether `p` occurs in `s` at position `i`.
fn matches_at(s: &[char], p: &[char], i: usize) -> (r: bool)
    requires
        i + p@.len() <= s@.len(),
    ensures
        r == occurs_at(s@, p@, i as int),
{
    let mut j: usize = 0;
    while j < p.len()
        invariant
            j <= p@.len(),
            i + p.len() <= s.len(),
            forall|k: int| 0 <= k < j ==> s@[i + k] == p@[k],
        decreases p@.len() - j,
    {
        if s[i + j] != p[j] {
            assert(s@.subrange(i as int, i + p@.len())[j as int] != p@[j as int]);
            return false;
        }
        j += 1;
    }
    assert(s@.subrange(i as int, i + p@.len()) =~= p@);
    true
}

/// Whether `p` occurs anywhere in `s`.
pub fn chars_contain(s: &[char], p: &[char]) -> (r: bool)
    ensures
        r == has_infix(s@, p@),
{
    if p.len() > s.len() {
        assert forall|i: int| !occurs_at(s@, p@, i) by {}
        return false;
    }
    let last = s.len() - p.len();
    let mut i: usize = 0;
    while i <= last
        invariant
            last == s@.len() - p@.len(),
            p@.len() <= s@.len(),
            forall|k: int| 0 <= k < i ==> !#[trigger] occurs_at(s@, p@, k),
        decreases last + 1 - i,
    {
        if matches_at(s, p, i) {
            return true;
        }
        if i == last {
            assert forall|k: int| !#[trigger] occurs_at(s@, p@, k) by {
                if 0 <= k <= last {
                    if k < i {
                    } else {
                        assert(k == i);
                    }
                }
            }
            return false;
        }
        i += 1;
    }
    false
}

/// Whether `p` occurs anywhere in `s`.
pub fn str_contains(s: &str, p: &str) -> (r: bool)
    ensures
        r == has_infix(s@, p@),
{
    let x = chars_of(s);
    let y = chars_of(p);
    chars_contain(x.as_slice(), y.as_slice())
}

/// Whether `s` begins with `p`.
pub fn str_starts_with(s: &str, p: &str) -> (r: bool)
    ensures
        r == has_prefix(s@, p@),
{
    let x = chars_of(s);
    let y = chars_of(p);
    if y.len() > x.len() {
        return false;
    }
    let r = matches_at(x.as_slice(), y.as_slice(), 0);
    assert(occurs_at(x@, y@, 0) == has_prefix(x@, y@));
    r
}

/// A `String` holding the characters of `s`.
pub fn string_from(s: &str) -> (r: String)
    ensures
        r@ == s@,
{
    let cs = chars_of(s);
    string_of(cs.as_slice())
}

/// Appends the characters of `t` to `s`.
pub fn push_str(s: &mut String, t: &str)
    ensures
        final(s)@ == old(s)@ + t@,
{
    let cs = chars_of(t);
    let mut i: usize = 0;
    while i < cs.len()
        invariant
            i <= cs@.len(),
            cs@ == t@,
            s@ == old(s)@ + t@.take(i as int),
        decreases cs@.len() - i,
    {
        push_char(s, cs[i]);
        assert(t@.take(i as int + 1) == t@.take(i as int).push(t@[i as int]));
        i += 1;
    }
    assert(t@.take(cs@.len() as int) == t@);
}

/// `s` without its leading `White_Space` characters.
pub open spec fn trim_start_spec(s: Seq<char>) -> Seq<char>
    decreases s.len(),
{
    if s.len() > 0 && white_space(s[0]) {
        trim_start_spec(s.subrange(1, s.len() as int))
    } else {
        s
    }
}

/// `s` without its trailing `White_Space` characters.
pub open spec fn trim_end_spec(s: Seq<char>) -> Seq<char>
    decreases s.len(),
{
    if s.len() > 0 && white_space(s.last()) {
        trim_end_spec(s.drop_last())
    } else {
        s
    }
}

/// `s` without leading and trailing `White_Space` characters, as `str::trim`.
pub open spec fn trim_spec(s: Seq<char>) -> Seq<char> {
    trim_end_spec(trim_start_spec(s))
}

/// `s` with leading and trailing whitespace removed.
pub fn str_trim(s: &str) -> (r: String)
    ensures
        r@ == trim_spec(s@),
{
    let cs = chars_of(s);
    let n = cs.len();
    let mut a: usize = 0;
    assert(s@.subrange(0, n as int) == s@);
    while a < n && is_white_space(cs[a])
        invariant
            a <= n,
            n == s@.len(),
            cs@ == s@,
            trim_start_spec(s@) == trim_start_spec(s@.subrange(a as int, n as int)),
        decreases n - a,
    {
        assert(s@.subrange(a as int, n as int).subrange(1, n - a) == s@.subrange(a + 1, n as int));
        a += 1;
    }
    let ghost l = s@.subrange(a as int, n as int);
    assert(trim_start_spec(l) == l);
    let mut b: usize = n;
    assert(l.subrange(0, (b - a) as int) == l);
    while b > a && is_white_space(cs[b - 1])
        invariant
            a <= b <= n,
            n == s@.len(),
            cs@ == s@,
            l == s@.subrange(a as int, n as int),
            trim_end_spec(l) == trim_end_spec(s@.subrange(a as int, b as int)),
        decreases b,
    {
        assert(s@.subrange(a as int, b as int).drop_last() == s@.subrange(a as int, b - 1));
        b -= 1;
    }
    string_of(vstd::slice::slice_subrange(cs.as_slice(), a, b))
}

/// `i` is the first position where `p` occurs in `s`.
pub open spec fn first_at(s: Seq<char>, p: Seq<char>, i: int) -> bool {
    occurs_at(s, p, i) && forall|j: int| 0 <= j < i ==> !#[trigger] occurs_at(s, p, j)
}

/// The first position where `p` occurs in `s`, as `str::find` reports it.
pub open spec fn find_spec(s: Seq<char>, p: Seq<char>) -> Option<int> {
    if has_infix(s, p) {
        Some(choose|i: int| first_at(s, p, i))
    } else {
        None
    }
}

/// The first position is unique.
pub proof fn lemma_first_at_unique(s: Seq<char>, p: Seq<char>, i: int, k: int)
    requires
        first_at(s, p, i),
        first_at(s, p, k),
    ensures
        i == k,
{
    if i < k {
        assert(!occurs_at(s, p, i));
    } else if k < i {
        assert(!occurs_at(s, p, k));
    }
}

/// The first position where `p` occurs in `s`.
pub fn chars_find(s: &[char], p: &[char]) -> (r: Option<usize>)
    ensures
        match r {
            Some(i) => find_spec(s@, p@) == Some(i as int),
            None => find_spec(s@, p@) is None,
        },
{
    if p.len() > s.len() {
        assert forall|i: int| !occurs_at(s@, p@, i) by {}
        return None;
    }
    let last = s.len() - p.len();
    let mut i: usize = 0;
    while i <= last
        invariant
            last == s@.len() - p@.len(),
            p@.len() <= s@.len(),
            forall|k: int| 0 <= k < i ==> !#[trigger] occurs_at(s@, p@, k),
        decreases last + 1 - i,
    {
        if matches_at(s, p, i) {
            proof {
                assert(first_at(s@, p@, i as int));
                let c = choose|c: int| first_at(s@, p@, c);
                lemma_first_at_unique(s@, p@, i as int, c);
            }
            return Some(i);
        }
        if i == last {
            assert forall|k: int| !#[trigger] occurs_at(s@, p@, k) by {
                if 0 <= k <= last && k >= i {
                    assert(k == i);
                }
            }
            return None;
        }
        i += 1;
    }
    None
}

/// A position `find` reports lies where the pattern fits.
pub proof fn lemma_find_in_range(s: Seq<char>, p: Seq<char>)
    ensures
        find_spec(s, p) matches Some(i) ==> 0 <= i && i + p.len() <= s.len(),
{
    if has_infix(s, p) {
        let w = choose|i: int| occurs_at(s, p, i);
        let c = choose|i: int| first_at(s, p, i);
        assert(exists|i: int| first_at(s, p, i)) by {
            lemma_first_exists(s, p, w);
        }
    }
}

/// Where `p` occurs at `w`, a first occurrence exists.
proof fn lemma_first_exists(s: Seq<char>, p: Seq<char>, w: int)
    requires
        occurs_at(s, p, w),
    ensures
        exists|i: int| first_at(s, p, i),
    decreases w,
{
    if forall|j: int| 0 <= j < w ==> !#[trigger] occurs_at(s, p, j) {
        assert(first_at(s, p, w));
    } else {
        let j = choose|j: int| 0 <= j < w && occurs_at(s, p, j);
        lemma_first_exists(s, p, j);
    }
}


/// The decimal digit character for `d` (below ten).
pub open spec fn digit_char(d: nat) -> char {
    if d == 0 {
        '0'
    } else if d == 1 {
        '1'
    } else if d == 2 {
        '2'
    } else if d == 3 {
        '3'
    } else if d == 4 {
        '4'
    } else if d == 5 {
        '5'
    } else if d == 6 {
        '6'
    } else if d == 7 {
        '7'
    } else if d == 8 {
        '8'
    } else {
        '9'
    }
}

/// The decimal notation of `n`, without leading zeros (`"0"` for zero).
pub open spec fn decimal(n: nat) -> Seq<char>
    decreases n,
{
    if n < 10 {
        seq![digit_char(n)]
    } else {
        decimal(n / 10).push(digit_char(n % 10))
    }
}

/// Appends the decimal notation of `n` to `s`.
pub fn push_decimal(s: &mut String, n: u64)
    ensures
        final(s)@ == old(s)@ + decimal(n as nat),
    decreases n,
{
    if n >= 10 {
        push_decimal(s, n / 10);
    }
    let d = n % 10;
    let c = if d == 0 {
        '0'
    } else if d == 1 {
        '1'
    } else if d == 2 {
        '2'
    } else if d == 3 {
        '3'
    } else if d == 4 {
        '4'
    } else if d == 5 {
        '5'
    } else if d == 6 {
        '6'
    } else if d == 7 {
        '7'
    } else if d == 8 {
        '8'
    } else {
        '9'
    };
    push_char(s, c);
}

/// Where `p` first occurs at `i`, `find` reports `i`.
pub proof fn lemma_find_first(s: Seq<char>, p: Seq<char>, i: int)
    requires
        first_at(s, p, i),
    ensures
        find_spec(s, p) == Some(i),
{
    assert(occurs_at(s, p, i));
    let c = choose|k: int| first_at(s, p, k);
    lemma_first_at_unique(s, p, i, c);
}

} // verus!
