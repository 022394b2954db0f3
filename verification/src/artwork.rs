//! Artwork keys and the decisions of the artwork loader: which cache entry an
//! image belongs to, which Deezer hit is the artist, and the disk-cache names.
//! Fetching and decoding the images is the caller's.

use vstd::prelude::*;
use std::hash::{Hash, Hasher};
use crate::text::{chars_of, string_of};
use crate::unicode::{alphanumeric, is_alphanumeric, lower_of, lowercase_of};

verus! {

/// Identifier of a library album.
#[derive(Debug, Clone, Copy, PartialEq, Eq, Hash, Structural)]
pub struct AlbumId(pub u64);

/// Identifier of a library artist.
#[derive(Debug, Clone, Copy, PartialEq, Eq, Hash, Structural)]
pub struct ArtistId(pub u64);

/// What a cached thumbnail belongs to.
#[derive(Debug, Clone, Copy, PartialEq, Eq, Hash, Structural)]
pub enum ArtKey {
    Album(AlbumId),
    Artist(ArtistId),
    /// The now-playing artist's pane photo (its own bucket, apart from the
    /// grid card).
    ArtistPhoto(ArtistId),
    /// The Concert view's full-screen, always square, artist photo.
    ConcertArtist(ArtistId),
    /// A remote image addressed by a stable hash of its URL.
    Remote(u64),
    /// An artist photo keyed by a stable hash of the artist's name.
    ArtistName(u64),
    /// A top-slice peek of another cover.
    Peek(u64),
    /// A generated solid-colour placeholder.
    Solid(u64),
}

/// The `DefaultHasher` digest of a string. `DefaultHasher`'s algorithm is
/// not fixed by std, so a digest may differ between Rust releases; within one
/// build it depends on the string alone.
pub uninterp spec fn str_digest(s: Seq<char>) -> u64;

/// The `DefaultHasher` digest of two strings hashed in turn.
pub uninterp spec fn str_pair_digest(a: Seq<char>, b: Seq<char>) -> u64;

/// The `DefaultHasher` digest of a key, a row count and the tag `"peek"`.
/// The key's derived `Hash` feeds its variant as an `isize`, so besides the
/// Rust release this digest also depends on the target's pointer width.
pub uninterp spec fn peek_digest(base: ArtKey, rows: u16) -> u64;

/// The `DefaultHasher` digest of a colour, a shape flag and the tag `"solid"`.
pub uninterp spec fn solid_digest(color: u32, circle: bool) -> u64;

/// Hashes `s` with a fresh `std::collections::hash_map::DefaultHasher`
/// (`Hash::hash`, then `Hasher::finish`). A hasher made by
/// `DefaultHasher::new` is unseeded, so the digest depends on the string
/// alone; the contract names it.
#[verifier::external_body]
fn digest_str(s: &str) -> (d: u64)
    ensures
        d == str_digest(s@),
{
    let mut h = std::collections::hash_map::DefaultHasher::new();
    s.hash(&mut h);
    h.finish()
}

/// Hashes `a` then `b` with a fresh `DefaultHasher`; the contract names the
/// digest.
#[verifier::external_body]
fn digest_str_pair(a: &str, b: &str) -> (d: u64)
    ensures
        d == str_pair_digest(a@, b@),
{
    let mut h = std::collections::hash_map::DefaultHasher::new();
    a.hash(&mut h);
    b.hash(&mut h);
    h.finish()
}

/// Hashes `base`, `rows` and `"peek"` with a fresh `DefaultHasher`; the
/// contract names the digest.
#[verifier::external_body]
fn digest_peek(base: ArtKey, rows: u16) -> (d: u64)
    ensures
        d == peek_digest(base, rows),
{
    let mut h = std::collections::hash_map::DefaultHasher::new();
    base.hash(&mut h);
    rows.hash(&mut h);
    "peek".hash(&mut h);
    h.finish()
}

/// Hashes `color`, `circle` and `"solid"` with a fresh `DefaultHasher`; the
/// contract names the digest.
#[verifier::external_body]
fn digest_solid(color: u32, circle: bool) -> (d: u64)
    ensures
        d == solid_digest(color, circle),
{
    let mut h = std::collections::hash_map::DefaultHasher::new();
    color.hash(&mut h);
    circle.hash(&mut h);
    "solid".hash(&mut h);
    h.finish()
}

impl ArtKey {
    /// Keys a remote image by a stable hash of its URL.
    pub fn remote(url: &str) -> (k: ArtKey)
        ensures
            k == ArtKey::Remote(str_digest(url@)),
    {
        ArtKey::Remote(digest_str(url))
    }

    /// Keys an artist photo by a stable hash of the artist's name.
    pub fn artist_name(name: &str) -> (k: ArtKey)
        ensures
            k == ArtKey::ArtistName(str_pair_digest(name@, "artist"@)),
    {
        ArtKey::ArtistName(digest_str_pair(name, "artist"))
    }

    /// Keys a square copy of a remote image by URL, apart from
    /// [`ArtKey::remote`]'s bucket.
    pub fn square(url: &str) -> (k: ArtKey)
        ensures
            k == ArtKey::Remote(str_pair_digest(url@, "square"@)),
    {
        ArtKey::Remote(digest_str_pair(url, "square"))
    }

    /// Keys the top-slice peek of `base` at `rows` cells tall.
    pub fn peek(base: ArtKey, rows: u16) -> (k: ArtKey)
        ensures
            k == ArtKey::Peek(peek_digest(base, rows)),
    {
        ArtKey::Peek(digest_peek(base, rows))
    }

    /// Keys a solid-colour placeholder by its packed `0xRRGGBB` colour and shape.
    pub fn solid(color: u32, circle: bool) -> (k: ArtKey)
        ensures
            k == ArtKey::Solid(solid_digest(color, circle)),
    {
        ArtKey::Solid(digest_solid(color, circle))
    }
}

/// Equal URLs key the same cache entry, in every bucket a URL keys.
pub proof fn lemma_url_keys_stable(a: Seq<char>, b: Seq<char>)
    requires
        a == b,
    ensures
        ArtKey::Remote(str_digest(a)) == ArtKey::Remote(str_digest(b)),
        ArtKey::Remote(str_pair_digest(a, "square"@)) == ArtKey::Remote(
            str_pair_digest(b, "square"@),
        ),
        ArtKey::ArtistName(str_pair_digest(a, "artist"@)) == ArtKey::ArtistName(
            str_pair_digest(b, "artist"@),
        ),
{
}

#[verifier::external_type_specification]
#[verifier::external_body]
pub struct ExPathBuf(std::path::PathBuf);

/// `PathBuf::clone`, which the derived `Clone` of [`ArtSource`] calls; nothing
/// is claimed of the copy.
pub assume_specification[ <std::path::PathBuf as Clone>::clone ](p: &std::path::PathBuf) -> std::path::PathBuf;

/// Where the loader sources an image.
#[derive(Debug, Clone)]
pub enum ArtSource {
    /// The embedded cover of this audio file.
    Embedded(std::path::PathBuf),
    /// An artist photo: Deezer (disk-cached), else the embedded `fallback`.
    Artist { name: String, fallback: Option<std::path::PathBuf> },
    /// A remote image by URL.
    Url(String),
}

/// One artwork request.
pub struct ArtRequest {
    pub key: ArtKey,
    pub source: ArtSource,
    /// Mask the result into a round avatar.
    pub circle: bool,
    /// Disk-cache root for online artist photos.
    pub cache_dir: std::path::PathBuf,
    /// For a carousel peek: scale to this width and keep the top slice of this
    /// height.
    pub crop: Option<(u32, u32)>,
}

// ---- name folding -------------------------------------------------------

/// The matching key of `s`: its alphanumeric characters, lowercased.
pub open spec fn fold_spec(s: Seq<char>) -> Seq<char>
    decreases s.len(),
{
    if s.len() == 0 {
        Seq::empty()
    } else if alphanumeric(s.last()) {
        fold_spec(s.drop_last()) + lower_of(s.last())
    } else {
        fold_spec(s.drop_last())
    }
}

/// Case-fold for matching: keep the alphanumerics, lowercased.
pub fn fold(s: &str) -> (out: String)
    ensures
        out@ == fold_spec(s@),
{
    let cs = chars_of(s);
    let mut out: Vec<char> = Vec::new();
    let mut i: usize = 0;
    while i < cs.len()
        invariant
            i <= cs@.len(),
            cs@ == s@,
            out@ == fold_spec(s@.take(i as int)),
        decreases cs@.len() - i,
    {
        let c = cs[i];
        assert(s@.take(i as int + 1).drop_last() == s@.take(i as int));
        if is_alphanumeric(c) {
            let low = lowercase_of(c);
            let ghost base = out@;
            let mut j: usize = 0;
            while j < low.len()
                invariant
                    j <= low@.len(),
                    out@ == base + low@.take(j as int),
                decreases low@.len() - j,
            {
                out.push(low[j]);
                assert(low@.take(j as int + 1) == low@.take(j as int).push(low@[j as int]));
                j += 1;
            }
            assert(low@.take(low@.len() as int) == low@);
        }
        i += 1;
    }
    assert(s@.take(cs@.len() as int) == s@);
    string_of(out.as_slice())
}

/// The disk-cache key of an artist name: its folded form cut to 64
/// characters, or `_` when nothing is left.
pub open spec fn slug_spec(s: Seq<char>) -> Seq<char> {
    let f = fold_spec(s);
    if f.len() == 0 {
        seq!['_']
    } else if f.len() > 64 {
        f.take(64)
    } else {
        f
    }
}

/// A filesystem-safe, never empty disk-cache key for an artist name.
pub fn slug(s: &str) -> (r: String)
    ensures
        r@ == slug_spec(s@),
{
    let f = fold(s);
    let cs = chars_of(f.as_str());
    if cs.len() == 0 {
        let mut u: Vec<char> = Vec::new();
        u.push('_');
        assert(u@ == seq!['_']);
        return string_of(u.as_slice());
    }
    let n: usize = if cs.len() > 64 { 64 } else { cs.len() };
    assert(cs@.len() <= 64 ==> cs@.subrange(0, n as int) == cs@);
    string_of(vstd::slice::slice_subrange(cs.as_slice(), 0, n))
}

/// The name of an artist photo in the disk cache.
pub fn artist_cache_name(name: &str) -> (r: String)
    ensures
        r@ == slug_spec(name@) + ".jpg"@,
{
    let mut r = slug(name);
    crate::text::push_str(&mut r, ".jpg");
    r
}

/// A hexadecimal digit.
pub open spec fn hex_char(d: u64) -> char {
    if d < 10 {
        ('0' as u64 + d) as char
    } else {
        ('a' as u64 + d - 10) as char
    }
}

/// The last `n` lowercase hexadecimal digits of `x`, most significant first.
pub open spec fn hex_tail(x: u64, n: nat) -> Seq<char>
    decreases n,
{
    if n == 0 {
        Seq::empty()
    } else {
        hex_tail(x / 16, (n - 1) as nat).push(hex_char(x % 16))
    }
}

fn hex_digit(d: u64) -> (c: char)
    requires
        d < 16,
    ensures
        c == hex_char(d),
{
    let digits: [char; 16] = [
        '0', '1', '2', '3', '4', '5', '6', '7', '8', '9', 'a', 'b', 'c', 'd', 'e', 'f',
    ];
    let c = digits[d as usize];
    assert(c == hex_char(d)) by {
        assert(digits@ == seq!['0', '1', '2', '3', '4', '5', '6', '7', '8', '9', 'a', 'b', 'c', 'd', 'e', 'f']);
    }
    c
}

fn hex_tail_of(x: u64, n: u8) -> (v: Vec<char>)
    ensures
        v@ == hex_tail(x, n as nat),
    decreases n,
{
    if n == 0 {
        Vec::new()
    } else {
        let mut v = hex_tail_of(x / 16, n - 1);
        v.push(hex_digit(x % 16));
        v
    }
}

/// The disk-cache name of a remote cover: the hash of its URL as sixteen
/// lowercase hexadecimal digits.
pub fn cover_cache_name(url: &str) -> (r: String)
    ensures
        r@ == hex_tail(str_digest(url@), 16),
{
    let h = digest_str(url);
    let v = hex_tail_of(h, 16);
    string_of(v.as_slice())
}

// ---- choosing the Deezer artist -----------------------------------------

/// One hit of a Deezer artist search, as far as the choice reads it. The
/// picture fields are `None` when the key is absent and `Some(None)` when it
/// holds no string.
pub struct DeezerArtist {
    pub name: Option<String>,
    pub fans: Option<i64>,
    pub picture_xl: Option<Option<String>>,
    pub picture_big: Option<Option<String>>,
}

/// A hit's fan count (missing reads as zero).
pub open spec fn fans(a: DeezerArtist) -> int {
    match a.fans {
        Some(f) => f as int,
        None => 0,
    }
}

/// Whether a hit's folded name is the wanted one (a missing name folds to
/// the empty key).
pub open spec fn name_matches(a: DeezerArtist, want: Seq<char>) -> bool {
    match a.name {
        Some(n) => fold_spec(n@) == want,
        None => fold_spec(Seq::empty()) == want,
    }
}

/// The index of the last most-fanned hit among the first `n` whose name
/// matches `want`.
pub open spec fn best_hit(hits: Seq<DeezerArtist>, want: Seq<char>, n: nat) -> Option<int>
    decreases n,
{
    if n == 0 {
        None
    } else {
        let b = best_hit(hits, want, (n - 1) as nat);
        if name_matches(hits[n - 1], want) {
            match b {
                None => Some(n - 1),
                Some(j) => if fans(hits[n - 1]) >= fans(hits[j]) {
                    Some(n - 1)
                } else {
                    Some(j)
                },
            }
        } else {
            b
        }
    }
}

/// The picture of a hit: the `picture_xl` entry when present, else
/// `picture_big`; an empty URL counts as none.
pub open spec fn picture_of(a: DeezerArtist) -> Option<Seq<char>> {
    let p = match a.picture_xl {
        Some(x) => x,
        None => match a.picture_big {
            Some(b) => b,
            None => None,
        },
    };
    match p {
        Some(s) => if s@.len() > 0 {
            Some(s@)
        } else {
            None
        },
        None => None,
    }
}

/// The photo chosen for artist `name` among Deezer hits: only a hit whose
/// folded name equals the folded `name`, the most-fanned of those (the last
/// among equals), and its picture.
pub open spec fn deezer_spec(hits: Seq<DeezerArtist>, name: Seq<char>) -> Option<Seq<char>> {
    match best_hit(hits, fold_spec(name), hits.len()) {
        Some(j) => picture_of(hits[j]),
        None => None,
    }
}

proof fn lemma_best_hit_in_range(hits: Seq<DeezerArtist>, want: Seq<char>, n: nat)
    ensures
        best_hit(hits, want, n) matches Some(j) ==> 0 <= j < n,
    decreases n,
{
    if n > 0 {
        lemma_best_hit_in_range(hits, want, (n - 1) as nat);
    }
}

/// Chooses the artist photo among Deezer search hits, requiring a folded name
/// match so the wrong act's face is never taken.
pub fn deezer_pick(hits: &Vec<DeezerArtist>, name: &str) -> (r: Option<String>)
    ensures
        match r {
            Some(u) => deezer_spec(hits@, name@) == Some(u@),
            None => deezer_spec(hits@, name@) is None,
        },
{
    let want = fold(name);
    let empty_key = fold("");
    let mut best: Option<usize> = None;
    let mut best_fans: i64 = 0;
    let mut i: usize = 0;
    while i < hits.len()
        invariant
            i <= hits@.len(),
            want@ == fold_spec(name@),
            empty_key@ == fold_spec(""@),
            match best {
                Some(j) => best_hit(hits@, want@, i as nat) == Some(j as int) && j < i && best_fans
                    == fans(hits@[j as int]),
                None => best_hit(hits@, want@, i as nat) is None,
            },
        decreases hits@.len() - i,
    {
        let h = &hits[i];
        let matched = match &h.name {
            Some(n) => fold(n.as_str()) == want,
            None => empty_key == want,
        };
        proof {
            reveal_strlit("");
            assert(""@ == Seq::<char>::empty());
        }
        if matched {
            let f: i64 = match h.fans {
                Some(f) => f,
                None => 0,
            };
            match best {
                None => {
                    best = Some(i);
                    best_fans = f;
                },
                Some(_) => {
                    if f >= best_fans {
                        best = Some(i);
                        best_fans = f;
                    }
                },
            }
        }
        i += 1;
    }
    match best {
        None => None,
        Some(j) => {
            let h = &hits[j];
            let p: Option<&String> = match &h.picture_xl {
                Some(x) => x.as_ref(),
                None => match &h.picture_big {
                    Some(b) => b.as_ref(),
                    None => None,
                },
            };
            match p {
                Some(s) => if s.as_str().unicode_len() > 0 {
                    Some(s.clone())
                } else {
                    None
                },
                None => None,
            }
        },
    }
}

/// The hit chosen among the first `n` is a name match with the most fans of
/// all name matches there (the last of those tied for most); there is none
/// exactly when no hit matches.
pub proof fn lemma_best_hit_has_most_fans(hits: Seq<DeezerArtist>, want: Seq<char>, n: nat)
    requires
        n <= hits.len(),
    ensures
        best_hit(hits, want, n) is None <==> (forall|k: int| 0 <= k < n ==> !name_matches(
            #[trigger] hits[k],
            want,
        )),
        best_hit(hits, want, n) matches Some(j) ==> {
            &&& 0 <= j < n
            &&& name_matches(hits[j], want)
            &&& forall|k: int|
                0 <= k < n && name_matches(#[trigger] hits[k], want) ==> fans(hits[k]) <= fans(
                    hits[j],
                )
            &&& forall|k: int|
                j < k < n && name_matches(#[trigger] hits[k], want) ==> fans(hits[k]) < fans(
                    hits[j],
                )
        },
    decreases n,
{
    if n > 0 {
        lemma_best_hit_has_most_fans(hits, want, (n - 1) as nat);
    }
}

/// The photo chosen for an artist is the picture of a hit whose folded name
/// is the artist's, and no hit with that name has more fans; with no such
/// hit there is no photo.
pub proof fn lemma_deezer_photo_is_most_fanned_match(hits: Seq<DeezerArtist>, name: Seq<char>)
    ensures
        (forall|k: int| 0 <= k < hits.len() ==> !name_matches(#[trigger] hits[k], fold_spec(name)))
            ==> deezer_spec(hits, name) is None,
        deezer_spec(hits, name) matches Some(u) ==> exists|j: int|
            {
                &&& 0 <= j < hits.len()
                &&& name_matches(hits[j], fold_spec(name))
                &&& picture_of(#[trigger] hits[j]) == Some(u)
                &&& forall|k: int|
                    0 <= k < hits.len() && name_matches(#[trigger] hits[k], fold_spec(name))
                        ==> fans(hits[k]) <= fans(hits[j])
            },
{
    lemma_best_hit_has_most_fans(hits, fold_spec(name), hits.len());
    if let Some(j) = best_hit(hits, fold_spec(name), hits.len()) {
        assert(picture_of(hits[j]) == deezer_spec(hits, name));
    }
}

/// A hit's photo is its extra-large picture when it has that entry, its
/// big picture otherwise, and no photo when the chosen entry is empty.
pub proof fn lemma_photo_prefers_the_largest_picture(a: DeezerArtist)
    ensures
        a.picture_xl matches Some(Some(u)) ==> picture_of(a) == if u@.len() > 0 {
            Some(u@)
        } else {
            None::<Seq<char>>
        },
        a.picture_xl is None ==> (a.picture_big matches Some(Some(u)) ==> picture_of(a) == if u@.len()
            > 0 {
            Some(u@)
        } else {
            None::<Seq<char>>
        }),
        a.picture_xl == Some(None::<String>) ==> picture_of(a) is None,
        a.picture_xl is None && a.picture_big is None ==> picture_of(a) is None,
{
}

} // verus!
