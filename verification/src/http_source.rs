//! HTTP audio sources: the ICY radio stream, whose audio bytes are
//! interleaved with metadata blocks carrying the stream title, and the
//! seekable ranged source for podcast episodes. This module holds their
//! decisions; the reads and requests are the caller's.

use vstd::prelude::*;
use crate::text::{chars_find, chars_of, find_spec, has_infix, occurs_at, str_trim, string_of, trim_spec};
use crate::timeshift::{seek_target, SeekOrigin};

verus! {

/// The text `String::from_utf8_lossy` decodes from `bytes` (invalid sequences
/// become U+FFFD).
pub uninterp spec fn lossy_utf8(bytes: Seq<u8>) -> Seq<char>;

/// Calls `String::from_utf8_lossy`; the contract names the decoded text,
/// which depends on the bytes alone. Bytes that are all ASCII are valid
/// UTF-8, which the call keeps as it is: one character per byte.
#[verifier::external_body]
fn decode_lossy(bytes: &[u8]) -> (s: String)
    ensures
        s@ == lossy_utf8(bytes@),
        (forall|i: int| 0 <= i < bytes@.len() ==> #[trigger] bytes@[i] < 0x80) ==> s@
            == bytes@.map_values(|b: u8| b as char),
{
    String::from_utf8_lossy(bytes).into_owned()
}

/// The title in a decoded metadata block: the text after the first
/// `StreamTitle='`, up to the first `';` after it (or the end), trimmed;
/// `None` when the field is missing or the title blank.
pub open spec fn stream_title_spec(s: Seq<char>) -> Option<Seq<char>> {
    let key = "StreamTitle='"@;
    match find_spec(s, key) {
        None => None,
        Some(i) => {
            let rest = s.subrange(i + key.len(), s.len() as int);
            let end = match find_spec(rest, "';"@) {
                Some(e) => e,
                None => rest.len() as int,
            };
            let t = trim_spec(rest.subrange(0, end));
            if t.len() > 0 {
                Some(t)
            } else {
                None
            }
        },
    }
}

/// Pulls `StreamTitle='…';` out of an ICY metadata block (lossy UTF-8).
pub fn parse_stream_title(meta: &[u8]) -> (r: Option<String>)
    ensures
        match r {
            Some(t) => stream_title_spec(lossy_utf8(meta@)) == Some(t@),
            None => stream_title_spec(lossy_utf8(meta@)) is None,
        },
        (forall|i: int| 0 <= i < meta@.len() ==> #[trigger] meta@[i] < 0x80) ==> match r {
            Some(t) => stream_title_spec(meta@.map_values(|b: u8| b as char)) == Some(t@),
            None => stream_title_spec(meta@.map_values(|b: u8| b as char)) is None,
        },
{
    let text = decode_lossy(meta);
    let s = chars_of(text.as_str());
    let key = chars_of("StreamTitle='");
    let i = match chars_find(s.as_slice(), key.as_slice()) {
        Some(i) => i,
        None => return None,
    };
    proof {
        crate::text::lemma_find_in_range(s@, key@);
        assert(find_spec(s@, key@) == Some(i as int));
        assert(i + key@.len() <= s@.len());
    }
    let klen = key.len();
    let total = s.len();
    assert(i + klen <= total);
    let start = i + klen;
    let rest = vstd::slice::slice_subrange(s.as_slice(), start, s.len());
    let close = chars_of("';");
    let end = match chars_find(rest, close.as_slice()) {
        Some(e) => {
            proof {
                crate::text::lemma_find_in_range(rest@, close@);
            }
            e
        },
        None => rest.len(),
    };
    let raw = string_of(vstd::slice::slice_subrange(rest, 0, end));
    let title = str_trim(raw.as_str());
    if title.as_str().unicode_len() > 0 {
        Some(title)
    } else {
        None
    }
}


/// What a read of an ICY stream does next.
#[derive(Debug, Clone, Copy, PartialEq, Eq, Structural)]
pub enum IcyStep {
    /// The stream carries no metadata: read straight into the caller's buffer.
    Passthrough,
    /// A metadata block comes first: read its length byte, then the block.
    Metadata,
    /// Read at most this many audio bytes (never past the next block).
    Audio(usize),
}

/// Where an ICY stream stands between metadata blocks.
pub struct IcyState {
    /// Audio bytes between metadata blocks (0: the stream has no metadata).
    pub metaint: usize,
    /// Audio bytes left before the next metadata block.
    pub until_meta: usize,
    /// The last title announced.
    pub last_title: String,
}

/// The next step of a read into a buffer of `len` bytes.
pub open spec fn icy_step_spec(metaint: usize, until_meta: usize, len: usize) -> IcyStep {
    if metaint == 0 {
        IcyStep::Passthrough
    } else if until_meta == 0 {
        IcyStep::Metadata
    } else if len < until_meta {
        IcyStep::Audio(len)
    } else {
        IcyStep::Audio(until_meta)
    }
}

/// The byte length of a metadata block whose length byte is `b`.
pub fn meta_block_len(b: u8) -> (n: usize)
    ensures
        n == b * 16,
{
    b as usize * 16
}

impl IcyState {
    /// A stream with metadata every `metaint` audio bytes (0: none).
    pub fn new(metaint: usize) -> (s: IcyState)
        ensures
            s.metaint == metaint,
            s.until_meta == metaint,
            s.last_title@ == Seq::<char>::empty(),
    {
        IcyState { metaint, until_meta: metaint, last_title: String::new() }
    }

    /// What a read into a buffer of `len` bytes does next.
    pub fn step(&self, len: usize) -> (s: IcyStep)
        ensures
            s == icy_step_spec(self.metaint, self.until_meta, len),
    {
        if self.metaint == 0 {
            IcyStep::Passthrough
        } else if self.until_meta == 0 {
            IcyStep::Metadata
        } else if len < self.until_meta {
            IcyStep::Audio(len)
        } else {
            IcyStep::Audio(self.until_meta)
        }
    }

    /// A metadata block `meta` was read (empty when its length byte was 0):
    /// the next block is a full interval away, and its title is returned for
    /// announcing when it differs from the last one announced.
    pub fn after_metadata(&mut self, meta: &[u8]) -> (announce: Option<String>)
        ensures
            final(self).metaint == old(self).metaint,
            final(self).until_meta == old(self).metaint,
            match stream_title_spec(lossy_utf8(meta@)) {
                Some(t) if t != old(self).last_title@ => {
                    &&& announce matches Some(a) && a@ == t
                    &&& final(self).last_title@ == t
                },
                _ => {
                    &&& announce is None
                    &&& final(self).last_title@ == old(self).last_title@
                },
            },
    {
        self.until_meta = self.metaint;
        match parse_stream_title(meta) {
            Some(t) => {
                if t == self.last_title {
                    None
                } else {
                    self.last_title = t.clone();
                    Some(t)
                }
            },
            None => None,
        }
    }

    /// `n` audio bytes were read.
    pub fn after_audio(&mut self, n: usize)
        requires
            n <= old(self).until_meta,
        ensures
            final(self).metaint == old(self).metaint,
            final(self).until_meta == old(self).until_meta - n,
            final(self).last_title@ == old(self).last_title@,
    {
        self.until_meta = self.until_meta - n;
    }
}

/// Audio reads never run past a metadata boundary: a step reads at most what
/// is left before the next block, and a block comes exactly when none is.
pub proof fn lemma_audio_stops_at_blocks(metaint: usize, until_meta: usize, len: usize)
    requires
        metaint > 0,
    ensures
        icy_step_spec(metaint, until_meta, len) matches IcyStep::Audio(k) ==> 0 < until_meta && k
            <= until_meta && k <= len,
        icy_step_spec(metaint, until_meta, len) == IcyStep::Metadata <==> until_meta == 0,
{
}

/// Where a seek of the ranged source lands: a target past the end is clamped
/// to the length, and a seek to the current position stays without a new
/// request (`None`).
pub open spec fn range_seek_spec(from: SeekOrigin, pos: u64, len: u64) -> Option<u64> {
    let target = seek_target(from, pos as nat, len as nat);
    if target == pos {
        None
    } else if target > len {
        Some(len)
    } else {
        Some(target as u64)
    }
}

/// Decides a seek of the ranged podcast source at `pos` of `len` bytes:
/// `Some(p)` reopens the body at `p`, `None` stays put.
pub fn range_seek(from: SeekOrigin, pos: u64, len: u64) -> (r: Option<u64>)
    ensures
        r == range_seek_spec(from, pos, len),
{
    let target: i128 = match from {
        SeekOrigin::Start(n) => n as i128,
        SeekOrigin::Current(d) => {
            let t = pos as i128 + d as i128;
            if t < 0 { 0 } else { t }
        },
        SeekOrigin::End(d) => {
            let t = len as i128 + d as i128;
            if t < 0 { 0 } else { t }
        },
    };
    if target == pos as i128 {
        None
    } else if target > len as i128 {
        Some(len)
    } else {
        Some(target as u64)
    }
}

/// A metadata block that opens with the title field yields the text
/// between the field's opening quote and its terminator `';`, trimmed, for
/// any title that does not itself hold that terminator: an apostrophe
/// inside the title (as in "Guns N' Roses") does not end it.
pub proof fn lemma_title_runs_to_its_terminator(t: Seq<char>, tail: Seq<char>)
    requires
        !has_infix(t, "';"@),
        trim_spec(t).len() > 0,
    ensures
        stream_title_spec("StreamTitle='"@ + t + "';"@ + tail) == Some(trim_spec(t)),
{
    reveal_strlit("StreamTitle='");
    reveal_strlit("';");
    let key = "StreamTitle='"@;
    let term = "';"@;
    let s = key + t + term + tail;
    assert(s.subrange(0, key.len() as int) =~= key);
    crate::text::lemma_find_first(s, key, 0);
    let rest = s.subrange(key.len() as int, s.len() as int);
    assert(rest =~= t + term + tail);
    assert(rest.subrange(t.len() as int, t.len() + 2int) =~= term);
    assert forall|j: int| 0 <= j < t.len() implies !#[trigger] occurs_at(rest, term, j) by {
        if j + 2 <= t.len() {
            if occurs_at(rest, term, j) {
                assert(t.subrange(j, j + 2) =~= rest.subrange(j, j + 2));
                assert(occurs_at(t, term, j));
            }
        } else {
            assert(rest[j + 1] == term[0]);
            if occurs_at(rest, term, j) {
                assert(rest.subrange(j, j + 2)[1] == term[1]);
            }
        }
    }
    crate::text::lemma_find_first(rest, term, t.len() as int);
    assert(rest.subrange(0, t.len() as int) =~= t);
}

/// Without its terminator the title runs to the end of the block; a blank
/// title gives none; and a block without the title field gives none.
pub proof fn lemma_title_edge_cases(t: Seq<char>, tail: Seq<char>, s: Seq<char>)
    ensures
        !has_infix(t, "';"@) && trim_spec(t).len() > 0 ==> stream_title_spec(
            "StreamTitle='"@ + t,
        ) == Some(trim_spec(t)),
        !has_infix(t, "';"@) && trim_spec(t).len() == 0 ==> stream_title_spec(
            "StreamTitle='"@ + t + "';"@ + tail,
        ) is None,
        !has_infix(s, "StreamTitle='"@) ==> stream_title_spec(s) is None,
{
    reveal_strlit("StreamTitle='");
    reveal_strlit("';");
    let key = "StreamTitle='"@;
    let term = "';"@;
    if !has_infix(t, term) {
        let s1 = key + t;
        assert(s1.subrange(0, key.len() as int) =~= key);
        crate::text::lemma_find_first(s1, key, 0);
        assert(s1.subrange(key.len() as int, s1.len() as int) =~= t);
        assert(t.subrange(0, t.len() as int) =~= t);
        let s2 = key + t + term + tail;
        assert(s2.subrange(0, key.len() as int) =~= key);
        crate::text::lemma_find_first(s2, key, 0);
        let rest = s2.subrange(key.len() as int, s2.len() as int);
        assert(rest =~= t + term + tail);
        assert(rest.subrange(t.len() as int, t.len() + 2int) =~= term);
        assert forall|j: int| 0 <= j < t.len() implies !#[trigger] occurs_at(rest, term, j) by {
            if j + 2 <= t.len() {
                if occurs_at(rest, term, j) {
                    assert(t.subrange(j, j + 2) =~= rest.subrange(j, j + 2));
                    assert(occurs_at(t, term, j));
                }
            } else {
                assert(rest[j + 1] == term[0]);
                if occurs_at(rest, term, j) {
                    assert(rest.subrange(j, j + 2)[1] == term[1]);
                }
            }
        }
        crate::text::lemma_find_first(rest, term, t.len() as int);
        assert(rest.subrange(0, t.len() as int) =~= t);
    }
}

} // verus!
