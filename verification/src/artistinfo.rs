//! Online artist info: bio, genre, formed year and country, from MusicBrainz
//! metadata and Wikipedia extracts.
//!
//! The bio lookup is conservative: it never shows an article that is not
//! provably this artist's. Every name-guessed page is title-checked against the
//! artist, and the authoritative path is MusicBrainz's own Wikidata link.
//! This module holds the decisions; fetching the documents is the caller's.

use vstd::prelude::*;
use crate::text::{
    chars_of, chars_contain, has_infix, has_prefix, str_eq, str_starts_with, str_trim, string_of,
    trim_spec,
};
use crate::unicode::{
    alphanumeric, is_alphanumeric, lower_of, lowercase_of, upper_of, uppercase_of,
};

verus! {

/// What is shown about an artist.
#[derive(Debug, Clone)]
pub struct ArtistInfo {
    pub name: String,
    pub bio: String,
    pub genre: Option<String>,
    pub formed: Option<String>,
    pub country: Option<String>,
    pub style: Option<String>,
}

impl Default for ArtistInfo {
    fn default() -> (r: ArtistInfo)
        ensures
            r.name@ == Seq::<char>::empty(),
            r.bio@ == Seq::<char>::empty(),
            r.genre is None,
            r.formed is None,
            r.country is None,
            r.style is None,
    {
        ArtistInfo {
            name: String::new(),
            bio: String::new(),
            genre: None,
            formed: None,
            country: None,
            style: None,
        }
    }
}

/// A lookup request: the track changed, look up this artist.
#[derive(Debug, Clone)]
pub struct InfoRequest {
    pub artist: String,
    pub album: String,
}

/// The reply; `artist` echoes the request so stale results can be ignored.
#[derive(Debug, Clone)]
pub struct InfoResult {
    pub artist: String,
    pub info: Option<ArtistInfo>,
}

// ---- name folding -------------------------------------------------------

/// The ASCII base of a common accented (lowercase) Latin letter; any other
/// character is returned unchanged.
pub open spec fn deaccent_spec(c: char) -> char {
    if c == 'à' || c == 'á' || c == 'â' || c == 'ã' || c == 'ä' || c == 'å' || c == 'ā' || c
        == 'ă' || c == 'ą' {
        'a'
    } else if c == 'ç' || c == 'ć' || c == 'č' {
        'c'
    } else if c == 'è' || c == 'é' || c == 'ê' || c == 'ë' || c == 'ē' || c == 'ė' || c == 'ę' {
        'e'
    } else if c == 'ì' || c == 'í' || c == 'î' || c == 'ï' || c == 'ī' || c == 'į' {
        'i'
    } else if c == 'ñ' || c == 'ń' {
        'n'
    } else if c == 'ò' || c == 'ó' || c == 'ô' || c == 'õ' || c == 'ö' || c == 'ø' || c == 'ō' {
        'o'
    } else if c == 'ù' || c == 'ú' || c == 'û' || c == 'ü' || c == 'ū' {
        'u'
    } else if c == 'ý' || c == 'ÿ' {
        'y'
    } else if c == 'ß' {
        's'
    } else {
        c
    }
}

/// Maps a lowercased accented Latin character to its ASCII base.
pub fn deaccent(c: char) -> (r: char)
    ensures
        r == deaccent_spec(c),
{
    match c {
        'à' | 'á' | 'â' | 'ã' | 'ä' | 'å' | 'ā' | 'ă' | 'ą' => 'a',
        'ç' | 'ć' | 'č' => 'c',
        'è' | 'é' | 'ê' | 'ë' | 'ē' | 'ė' | 'ę' => 'e',
        'ì' | 'í' | 'î' | 'ï' | 'ī' | 'į' => 'i',
        'ñ' | 'ń' => 'n',
        'ò' | 'ó' | 'ô' | 'õ' | 'ö' | 'ø' | 'ō' => 'o',
        'ù' | 'ú' | 'û' | 'ü' | 'ū' => 'u',
        'ý' | 'ÿ' => 'y',
        'ß' => 's',
        other => other,
    }
}

/// The de-accented alphanumeric characters among `ls`, in order.
pub open spec fn keep_alnum(ls: Seq<char>) -> Seq<char>
    decreases ls.len(),
{
    if ls.len() == 0 {
        Seq::empty()
    } else {
        let rest = keep_alnum(ls.drop_last());
        let b = deaccent_spec(ls.last());
        if alphanumeric(b) {
            rest.push(b)
        } else {
            rest
        }
    }
}

/// The folded key of `s`: lowercased, de-accented, and only alphanumerics kept.
pub open spec fn fold_spec(s: Seq<char>) -> Seq<char>
    decreases s.len(),
{
    if s.len() == 0 {
        Seq::empty()
    } else {
        fold_spec(s.drop_last()) + keep_alnum(lower_of(s.last()))
    }
}

/// Lowercases, de-accents (common Latin) and keeps only alphanumerics: a loose
/// key for comparing names and titles.
pub fn fold(s: &str) -> (out: Vec<char>)
    ensures
        out@ == fold_spec(s@),
{
    let cs = chars_of(s);
    let mut out: Vec<char> = Vec::new();
    let mut i: usize = 0;
    while i < cs.len()
        invariant
            i <= cs@.len(),
            cs@ == s@,
            out@ == fold_spec(s@.take(i as int)),
        decreases cs@.len() - i,
    {
        let low = lowercase_of(cs[i]);
        let ghost base = out@;
        let mut j: usize = 0;
        while j < low.len()
            invariant
                j <= low@.len(),
                low@ == lower_of(cs@[i as int]),
                out@ == base + keep_alnum(low@.take(j as int)),
            decreases low@.len() - j,
        {
            let b = deaccent(low[j]);
            assert(low@.take(j as int + 1).drop_last() == low@.take(j as int));
            if is_alphanumeric(b) {
                out.push(b);
            }
            j += 1;
        }
        assert(low@.take(low@.len() as int) == low@);
        assert(s@.take(i as int + 1).drop_last() == s@.take(i as int));
        i += 1;
    }
    assert(s@.take(cs@.len() as int) == s@);
    out
}

/// Whether a page `title` plausibly belongs to `name`: the folded name is not
/// empty and occurs in the folded title.
pub open spec fn relevant_spec(title: Seq<char>, name: Seq<char>) -> bool {
    fold_spec(name).len() > 0 && has_infix(fold_spec(title), fold_spec(name))
}

/// Whether a Wikipedia page `title` plausibly belongs to `name`.
pub fn name_relevant(title: &str, name: &str) -> (r: bool)
    ensures
        r == relevant_spec(title@, name@),
{
    let t = fold(title);
    let n = fold(name);
    n.len() > 0 && chars_contain(t.as_slice(), n.as_slice())
}

// ---- Wikidata ids -------------------------------------------------------

/// `s` without its trailing `/` characters.
pub open spec fn trim_slashes(s: Seq<char>) -> Seq<char>
    decreases s.len(),
{
    if s.len() > 0 && s.last() == '/' {
        trim_slashes(s.drop_last())
    } else {
        s
    }
}

/// The part of `s` after its last `/` (all of `s` when it has none).
pub open spec fn last_segment(s: Seq<char>) -> Seq<char>
    decreases s.len(),
{
    if s.len() == 0 || s.last() == '/' {
        Seq::empty()
    } else {
        last_segment(s.drop_last()).push(s.last())
    }
}

/// A Wikidata entity id: `Q` followed only by ASCII digits.
pub open spec fn is_qid(id: Seq<char>) -> bool {
    id.len() > 0 && id[0] == 'Q' && forall|k: int| 1 <= k < id.len() ==> '0' <= #[trigger] id[k]
        <= '9'
}

/// The entity id a Wikidata URL names, if its last path segment is one.
pub open spec fn qid_spec(url: Seq<char>) -> Option<Seq<char>> {
    let id = last_segment(trim_slashes(url));
    if is_qid(id) {
        Some(id)
    } else {
        None
    }
}

/// Pulls the `Q…` id out of a `https://www.wikidata.org/wiki/Q12345` URL.
pub fn wikidata_qid_from_url(url: &str) -> (r: Option<String>)
    ensures
        match r {
            Some(id) => qid_spec(url@) == Some(id@),
            None => qid_spec(url@) is None,
        },
{
    let cs = chars_of(url);
    let mut j: usize = cs.len();
    assert(url@.take(j as int) == url@);
    while j > 0 && cs[j - 1] == '/'
        invariant
            j <= cs@.len(),
            cs@ == url@,
            trim_slashes(url@) == trim_slashes(url@.take(j as int)),
        decreases j,
    {
        assert(url@.take(j as int).drop_last() == url@.take(j as int - 1));
        j -= 1;
    }
    let ghost t = url@.take(j as int);
    assert(trim_slashes(t) == t);
    let mut k: usize = j;
    assert(t.take(k as int) == t);
    assert(t.subrange(k as int, j as int) == Seq::<char>::empty());
    while k > 0 && cs[k - 1] != '/'
        invariant
            k <= j <= cs@.len(),
            cs@ == url@,
            t == url@.take(j as int),
            last_segment(t) == last_segment(t.take(k as int)) + t.subrange(k as int, j as int),
        decreases k,
    {
        assert(t.take(k as int).drop_last() == t.take(k as int - 1));
        assert(t.take(k as int).last() == t[k - 1]);
        assert(t.subrange(k - 1, j as int) == seq![t[k - 1]] + t.subrange(k as int, j as int));
        assert(last_segment(t.take(k - 1)).push(t[k - 1]) + t.subrange(k as int, j as int)
            == last_segment(t.take(k - 1)) + t.subrange(k - 1, j as int));
        k -= 1;
    }
    assert(last_segment(t.take(k as int)) == Seq::<char>::empty());
    let ghost id = t.subrange(k as int, j as int);
    assert(last_segment(t) == id);
    if k == j || cs[k] != 'Q' {
        assert(k < j ==> id[0] == cs@[k as int]);
        return None;
    }
    let mut m: usize = k + 1;
    while m < j
        invariant
            k < m <= j <= cs@.len(),
            cs@ == url@,
            id == url@.subrange(k as int, j as int),
            last_segment(trim_slashes(url@)) == id,
            forall|q: int| k + 1 <= q < m ==> '0' <= #[trigger] cs@[q] <= '9',
        decreases j - m,
    {
        if cs[m] < '0' || cs[m] > '9' {
            assert(id[m - k] == cs@[m as int]);
            return None;
        }
        m += 1;
    }
    assert forall|q: int| 1 <= q < id.len() implies '0' <= #[trigger] id[q] <= '9' by {
        assert(id[q] == cs@[k + q]);
    }
    Some(string_of(vstd::slice::slice_subrange(cs.as_slice(), k, j)))
}


// ---- language of a country ---------------------------------------------

/// The uppercase form of `s`, character by character.
pub open spec fn upper_all(s: Seq<char>) -> Seq<char>
    decreases s.len(),
{
    if s.len() == 0 {
        Seq::empty()
    } else {
        upper_all(s.drop_last()) + upper_of(s.last())
    }
}

/// The uppercase form of `s`.
pub fn uppercase(s: &str) -> (r: String)
    ensures
        r@ == upper_all(s@),
{
    let cs = chars_of(s);
    let mut out: Vec<char> = Vec::new();
    let mut i: usize = 0;
    while i < cs.len()
        invariant
            i <= cs@.len(),
            cs@ == s@,
            out@ == upper_all(s@.take(i as int)),
        decreases cs@.len() - i,
    {
        let up = uppercase_of(cs[i]);
        let mut j: usize = 0;
        let ghost base = out@;
        while j < up.len()
            invariant
                j <= up@.len(),
                out@ == base + up@.take(j as int),
            decreases up@.len() - j,
        {
            out.push(up[j]);
            assert(up@.take(j as int + 1) == up@.take(j as int).push(up@[j as int]));
            j += 1;
        }
        assert(up@.take(up@.len() as int) == up@);
        assert(s@.take(i as int + 1).drop_last() == s@.take(i as int));
        i += 1;
    }
    assert(s@.take(cs@.len() as int) == s@);
    string_of(out.as_slice())
}

/// The Wikipedia language of an (uppercase) ISO country code, for the common
/// music markets; `None` for English-speaking and unmapped countries.
pub open spec fn lang_code(c: Seq<char>) -> Option<Seq<char>> {
    if c == "CN"@ || c == "TW"@ || c == "HK"@ || c == "MO"@ || c == "SG"@ {
        Some("zh"@)
    } else if c == "JP"@ {
        Some("ja"@)
    } else if c == "KR"@ || c == "KP"@ {
        Some("ko"@)
    } else if c == "IL"@ {
        Some("he"@)
    } else if c == "SA"@ || c == "AE"@ || c == "EG"@ || c == "MA"@ || c == "DZ"@ || c == "TN"@ || c == "IQ"@ || c == "JO"@ || c == "LB"@ || c == "KW"@ || c == "QA"@ || c == "OM"@ || c == "BH"@ || c == "YE"@ || c == "SY"@ || c == "LY"@ || c == "SD"@ || c == "PS"@ {
        Some("ar"@)
    } else if c == "FR"@ {
        Some("fr"@)
    } else if c == "DE"@ || c == "AT"@ {
        Some("de"@)
    } else if c == "ES"@ || c == "MX"@ || c == "AR"@ || c == "CO"@ || c == "CL"@ || c == "PE"@ || c == "VE"@ || c == "UY"@ {
        Some("es"@)
    } else if c == "PT"@ || c == "BR"@ {
        Some("pt"@)
    } else if c == "IT"@ {
        Some("it"@)
    } else if c == "RU"@ {
        Some("ru"@)
    } else if c == "TR"@ {
        Some("tr"@)
    } else if c == "NL"@ {
        Some("nl"@)
    } else if c == "SE"@ {
        Some("sv"@)
    } else if c == "NO"@ {
        Some("no"@)
    } else if c == "FI"@ {
        Some("fi"@)
    } else if c == "PL"@ {
        Some("pl"@)
    } else if c == "GR"@ {
        Some("el"@)
    } else if c == "TH"@ {
        Some("th"@)
    } else if c == "VN"@ {
        Some("vi"@)
    } else if c == "ID"@ {
        Some("id"@)
    } else {
        None
    }
}

/// The Wikipedia language code for an artist's `country` (case-insensitive),
/// so a non-English artist's bio comes from their own language's Wikipedia.
pub fn country_wiki_lang(country: &str) -> (r: Option<&'static str>)
    ensures
        match r {
            Some(l) => lang_code(upper_all(country@)) == Some(l@),
            None => lang_code(upper_all(country@)) is None,
        },
{
    let up = uppercase(country);
    let u = up.as_str();
    if str_eq(u, "CN") || str_eq(u, "TW") || str_eq(u, "HK") || str_eq(u, "MO") || str_eq(u, "SG") {
        Some("zh")
    } else if str_eq(u, "JP") {
        Some("ja")
    } else if str_eq(u, "KR") || str_eq(u, "KP") {
        Some("ko")
    } else if str_eq(u, "IL") {
        Some("he")
    } else if str_eq(u, "SA") || str_eq(u, "AE") || str_eq(u, "EG") || str_eq(u, "MA") || str_eq(u, "DZ") || str_eq(u, "TN") || str_eq(u, "IQ") || str_eq(u, "JO") || str_eq(u, "LB") || str_eq(u, "KW") || str_eq(u, "QA") || str_eq(u, "OM") || str_eq(u, "BH") || str_eq(u, "YE") || str_eq(u, "SY") || str_eq(u, "LY") || str_eq(u, "SD") || str_eq(u, "PS") {
        Some("ar")
    } else if str_eq(u, "FR") {
        Some("fr")
    } else if str_eq(u, "DE") || str_eq(u, "AT") {
        Some("de")
    } else if str_eq(u, "ES") || str_eq(u, "MX") || str_eq(u, "AR") || str_eq(u, "CO") || str_eq(u, "CL") || str_eq(u, "PE") || str_eq(u, "VE") || str_eq(u, "UY") {
        Some("es")
    } else if str_eq(u, "PT") || str_eq(u, "BR") {
        Some("pt")
    } else if str_eq(u, "IT") {
        Some("it")
    } else if str_eq(u, "RU") {
        Some("ru")
    } else if str_eq(u, "TR") {
        Some("tr")
    } else if str_eq(u, "NL") {
        Some("nl")
    } else if str_eq(u, "SE") {
        Some("sv")
    } else if str_eq(u, "NO") {
        Some("no")
    } else if str_eq(u, "FI") {
        Some("fi")
    } else if str_eq(u, "PL") {
        Some("pl")
    } else if str_eq(u, "GR") {
        Some("el")
    } else if str_eq(u, "TH") {
        Some("th")
    } else if str_eq(u, "VN") {
        Some("vi")
    } else if str_eq(u, "ID") {
        Some("id")
    } else {
        None
    }
}

// ---- title case ---------------------------------------------------------

/// What title-casing makes of the character at `i`: the first character of
/// each space-separated word is uppercased, everything else is kept.
pub open spec fn title_piece(s: Seq<char>, i: int) -> Seq<char> {
    if s[i] != ' ' && (i == 0 || s[i - 1] == ' ') {
        upper_of(s[i])
    } else {
        seq![s[i]]
    }
}

/// `s` title-cased up to (not including) position `n`.
pub open spec fn title_upto(s: Seq<char>, n: nat) -> Seq<char>
    decreases n,
{
    if n == 0 {
        Seq::empty()
    } else {
        title_upto(s, (n - 1) as nat) + title_piece(s, n - 1)
    }
}

/// Uppercases the first character of every space-separated word of `s`.
pub fn title_case(s: &str) -> (r: String)
    ensures
        r@ == title_upto(s@, s@.len()),
{
    let cs = chars_of(s);
    let mut out: Vec<char> = Vec::new();
    let mut i: usize = 0;
    while i < cs.len()
        invariant
            i <= cs@.len(),
            cs@ == s@,
            out@ == title_upto(s@, i as nat),
        decreases cs@.len() - i,
    {
        let c = cs[i];
        if c != ' ' && (i == 0 || cs[i - 1] == ' ') {
            let up = uppercase_of(c);
            let mut j: usize = 0;
            let ghost base = out@;
            while j < up.len()
                invariant
                    j <= up@.len(),
                    out@ == base + up@.take(j as int),
                decreases up@.len() - j,
            {
                out.push(up[j]);
                assert(up@.take(j as int + 1) == up@.take(j as int).push(up@[j as int]));
                j += 1;
            }
            assert(up@.take(up@.len() as int) == up@);
        } else {
            out.push(c);
        }
        i += 1;
    }
    string_of(out.as_slice())
}


// ---- Wikipedia pages -----------------------------------------------------

/// One page of a MediaWiki `query` response, as far as the bio lookup reads it.
pub struct WikiPage {
    pub title: Option<String>,
    pub extract: Option<String>,
    /// The page carries the `disambiguation` page property.
    pub disambiguation: bool,
}

/// The view of an optional string.
pub open spec fn opt_view(o: Option<String>) -> Option<Seq<char>> {
    match o {
        Some(s) => Some(s@),
        None => None,
    }
}

/// The view of an optional pair of strings.
pub open spec fn pair_view(o: Option<(String, String)>) -> Option<(Seq<char>, Seq<char>)> {
    match o {
        Some((a, b)) => Some((a@, b@)),
        None => None,
    }
}

/// The first usable page's `(title, trimmed extract)`: disambiguation pages
/// and pages whose extract is missing or blank are skipped; a missing title
/// reads as empty.
pub open spec fn page_pick(pages: Seq<WikiPage>) -> Option<(Seq<char>, Seq<char>)>
    decreases pages.len(),
{
    if pages.len() == 0 {
        None
    } else {
        let p = pages[0];
        if !p.disambiguation && p.extract is Some && trim_spec(p.extract->0@).len() > 0 {
            Some(
                (
                    match p.title {
                        Some(t) => t@,
                        None => Seq::empty(),
                    },
                    trim_spec(p.extract->0@),
                ),
            )
        } else {
            page_pick(pages.subrange(1, pages.len() as int))
        }
    }
}

/// The first page's `(title, extract)` of a MediaWiki `query` response,
/// skipping disambiguation pages and empty extracts.
pub fn extract_first_titled(pages: &Vec<WikiPage>) -> (r: Option<(String, String)>)
    ensures
        pair_view(r) == page_pick(pages@),
{
    let mut i: usize = 0;
    assert(pages@.subrange(0, pages@.len() as int) == pages@);
    while i < pages.len()
        invariant
            i <= pages@.len(),
            page_pick(pages@) == page_pick(pages@.subrange(i as int, pages@.len() as int)),
        decreases pages@.len() - i,
    {
        let p = &pages[i];
        let ghost rest = pages@.subrange(i as int, pages@.len() as int);
        assert(rest[0] == *p);
        assert(rest.subrange(1, rest.len() as int) == pages@.subrange(i + 1, pages@.len() as int));
        if !p.disambiguation {
            match &p.extract {
                Some(ex) => {
                    let ex = str_trim(ex.as_str());
                    if ex.as_str().unicode_len() > 0 {
                        let title = match &p.title {
                            Some(t) => t.clone(),
                            None => String::new(),
                        };
                        return Some((title, ex));
                    }
                },
                None => {},
            }
        }
        i += 1;
    }
    None
}

// ---- Wikidata sitelinks --------------------------------------------------

/// One sitelink of a Wikidata entity: its key (such as `enwiki`) and the
/// linked page's title, when it has one. The keys of an entity are distinct.
pub struct SiteLink {
    pub key: String,
    pub title: Option<String>,
}

/// The title linked under `key`.
pub open spec fn title_of(links: Seq<SiteLink>, key: Seq<char>) -> Option<Seq<char>>
    decreases links.len(),
{
    if links.len() == 0 {
        None
    } else if links[0].key@ == key {
        opt_view(links[0].title)
    } else {
        title_of(links.subrange(1, links.len() as int), key)
    }
}

/// The language of a sitelink key naming a real Wikipedia: `<lang>wiki` with
/// a language that is not empty, `commons` or `species`.
pub open spec fn wiki_lang(key: Seq<char>) -> Option<Seq<char>> {
    if key.len() >= 4 && key.subrange(key.len() - 4, key.len() as int) == "wiki"@ {
        let lang = key.subrange(0, key.len() - 4);
        if lang == "commons"@ || lang == "species"@ || lang.len() == 0 {
            None
        } else {
            Some(lang)
        }
    } else {
        None
    }
}

/// The first sitelink, in order, of any real Wikipedia that has a title.
pub open spec fn any_wiki(links: Seq<SiteLink>) -> Option<(Seq<char>, Seq<char>)>
    decreases links.len(),
{
    if links.len() == 0 {
        None
    } else if wiki_lang(links[0].key@) is Some && links[0].title is Some {
        Some((wiki_lang(links[0].key@)->0, links[0].title->0@))
    } else {
        any_wiki(links.subrange(1, links.len() as int))
    }
}

/// The `(lang, title)` a Wikidata entity's sitelinks lead to: English, then the
/// artist's `native` language, then any language edition.
pub open spec fn sitelink_spec(links: Seq<SiteLink>, native: Option<Seq<char>>) -> Option<
    (Seq<char>, Seq<char>),
> {
    if title_of(links, "enwiki"@) is Some {
        Some(("en"@, title_of(links, "enwiki"@)->0))
    } else if native is Some && title_of(links, native->0 + "wiki"@) is Some {
        Some((native->0, title_of(links, native->0 + "wiki"@)->0))
    } else {
        any_wiki(links)
    }
}

/// The title linked under `key`.
fn title_for(links: &Vec<SiteLink>, key: &str) -> (r: Option<String>)
    ensures
        opt_view(r) == title_of(links@, key@),
{
    let mut i: usize = 0;
    assert(links@.subrange(0, links@.len() as int) == links@);
    while i < links.len()
        invariant
            i <= links@.len(),
            title_of(links@, key@) == title_of(
                links@.subrange(i as int, links@.len() as int),
                key@,
            ),
        decreases links@.len() - i,
    {
        let ghost rest = links@.subrange(i as int, links@.len() as int);
        assert(rest[0] == links@[i as int]);
        assert(rest.subrange(1, rest.len() as int) == links@.subrange(i + 1, links@.len() as int));
        if str_eq(links[i].key.as_str(), key) {
            return match &links[i].title {
                Some(t) => Some(t.clone()),
                None => None,
            };
        }
        i += 1;
    }
    None
}

/// The language of a sitelink key naming a real Wikipedia.
fn lang_of_key(key: &str) -> (r: Option<Vec<char>>)
    ensures
        match r {
            Some(l) => wiki_lang(key@) == Some(l@),
            None => wiki_lang(key@) is None,
        },
{
    let cs = chars_of(key);
    let n = cs.len();
    if n < 4 || cs[n - 4] != 'w' || cs[n - 3] != 'i' || cs[n - 2] != 'k' || cs[n - 1] != 'i' {
        proof {
            if n >= 4 && key@.subrange(n - 4, n as int) == "wiki"@ {
                reveal_strlit("wiki");
                assert(key@.subrange(n - 4, n as int)[0] == 'w');
                assert(key@.subrange(n - 4, n as int)[1] == 'i');
                assert(key@.subrange(n - 4, n as int)[2] == 'k');
                assert(key@.subrange(n - 4, n as int)[3] == 'i');
            }
        }
        return None;
    }
    proof {
        reveal_strlit("wiki");
        assert(key@.subrange(n - 4, n as int) =~= "wiki"@);
    }
    let lang = vstd::slice::slice_subrange(cs.as_slice(), 0, n - 4);
    let commons = chars_of("commons");
    let species = chars_of("species");
    if lang.len() == 0 || crate::text::chars_eq(lang, commons.as_slice())
        || crate::text::chars_eq(lang, species.as_slice()) {
        return None;
    }
    Some(vstd::slice::slice_to_vec(lang))
}

/// Chooses a Wikipedia sitelink: English, then `native`, then any language
/// edition (never Commons or Wikispecies).
pub fn sitelink_pick(links: &Vec<SiteLink>, native: Option<&str>) -> (r: Option<(String, String)>)
    ensures
        pair_view(r) == sitelink_spec(
            links@,
            match native {
                Some(l) => Some(l@),
                None => None,
            },
        ),
{
    if let Some(t) = title_for(links, "enwiki") {
        return Some((crate::text::string_from("en"), t));
    }
    if let Some(lang) = native {
        let mut key = crate::text::string_from(lang);
        crate::text::push_str(&mut key, "wiki");
        if let Some(t) = title_for(links, key.as_str()) {
            return Some((crate::text::string_from(lang), t));
        }
    }
    let ghost nat_view = match native {
        Some(l) => Some(l@),
        None => None,
    };
    let mut i: usize = 0;
    assert(links@.subrange(0, links@.len() as int) == links@);
    while i < links.len()
        invariant
            i <= links@.len(),
            title_of(links@, "enwiki"@) is None,
            nat_view is Some ==> title_of(links@, nat_view->0 + "wiki"@) is None,
            nat_view == match native {
                Some(l) => Some(l@),
                None => None::<Seq<char>>,
            },
            any_wiki(links@) == any_wiki(links@.subrange(i as int, links@.len() as int)),
        decreases links@.len() - i,
    {
        let ghost rest = links@.subrange(i as int, links@.len() as int);
        assert(rest[0] == links@[i as int]);
        assert(rest.subrange(1, rest.len() as int) == links@.subrange(i + 1, links@.len() as int));
        if let Some(lang) = lang_of_key(links[i].key.as_str()) {
            if let Some(t) = &links[i].title {
                return Some((string_of(lang.as_slice()), t.clone()));
            }
        }
        i += 1;
    }
    None
}


// ---- MusicBrainz artist --------------------------------------------------

/// A MusicBrainz alias of an artist and the locale it is written for.
pub struct Alias {
    pub name: Option<String>,
    pub locale: Option<String>,
}

/// A MusicBrainz tag and its vote count.
pub struct Tag {
    pub name: Option<String>,
    pub count: Option<i64>,
}

/// The fields of a MusicBrainz artist search hit that the lookup reads.
pub struct MbArtist {
    pub id: Option<String>,
    pub name: Option<String>,
    pub country: Option<String>,
    /// The name of the artist's `area`.
    pub area_name: Option<String>,
    /// The begin date of the artist's `life-span`.
    pub begin: Option<String>,
    pub tags: Vec<Tag>,
    pub aliases: Vec<Alias>,
}

/// The name of the first alias whose locale begins with `lang` (`None` when
/// there is no such alias, or it has no name).
pub open spec fn alias_spec(aliases: Seq<Alias>, lang: Seq<char>) -> Option<Seq<char>>
    decreases aliases.len(),
{
    if aliases.len() == 0 {
        None
    } else if aliases[0].locale is Some && has_prefix(aliases[0].locale->0@, lang) {
        opt_view(aliases[0].name)
    } else {
        alias_spec(aliases.subrange(1, aliases.len() as int), lang)
    }
}

/// The artist's alias for locale `lang`: their native-script name.
pub fn alias_for_locale(aliases: &Vec<Alias>, lang: &str) -> (r: Option<String>)
    ensures
        opt_view(r) == alias_spec(aliases@, lang@),
{
    let mut i: usize = 0;
    assert(aliases@.subrange(0, aliases@.len() as int) == aliases@);
    while i < aliases.len()
        invariant
            i <= aliases@.len(),
            alias_spec(aliases@, lang@) == alias_spec(
                aliases@.subrange(i as int, aliases@.len() as int),
                lang@,
            ),
        decreases aliases@.len() - i,
    {
        let ghost rest = aliases@.subrange(i as int, aliases@.len() as int);
        assert(rest[0] == aliases@[i as int]);
        assert(rest.subrange(1, rest.len() as int) == aliases@.subrange(
            i + 1,
            aliases@.len() as int,
        ));
        let a = &aliases[i];
        if let Some(loc) = &a.locale {
            if str_starts_with(loc.as_str(), lang) {
                return match &a.name {
                    Some(n) => Some(n.clone()),
                    None => None,
                };
            }
        }
        i += 1;
    }
    None
}

/// A tag's vote count (a missing count reads as zero).
pub open spec fn votes(t: Tag) -> int {
    match t.count {
        Some(c) => c as int,
        None => 0,
    }
}

/// The index of the last most-voted tag among the first `n` (`n > 0`).
pub open spec fn best_tag(tags: Seq<Tag>, n: nat) -> int
    decreases n,
{
    if n <= 1 {
        0
    } else if votes(tags[n - 1]) >= votes(tags[best_tag(tags, (n - 1) as nat)]) {
        n - 1
    } else {
        best_tag(tags, (n - 1) as nat)
    }
}

/// The title-cased name of the most-voted tag (the last one among equals).
pub open spec fn top_tag_spec(tags: Seq<Tag>) -> Option<Seq<char>> {
    if tags.len() == 0 {
        None
    } else {
        match tags[best_tag(tags, tags.len())].name {
            Some(n) => Some(title_upto(n@, n@.len())),
            None => None,
        }
    }
}

proof fn lemma_best_tag_in_range(tags: Seq<Tag>, n: nat)
    requires
        0 < n,
    ensures
        0 <= best_tag(tags, n) < n,
    decreases n,
{
    if n > 1 {
        lemma_best_tag_in_range(tags, (n - 1) as nat);
    }
}

/// The most-voted tag, as the artist's genre.
pub fn top_tag(tags: &Vec<Tag>) -> (r: Option<String>)
    ensures
        opt_view(r) == top_tag_spec(tags@),
{
    if tags.len() == 0 {
        return None;
    }
    let mut best: usize = 0;
    let mut best_votes: i64 = match tags[0].count {
        Some(c) => c,
        None => 0,
    };
    let mut i: usize = 1;
    while i < tags.len()
        invariant
            1 <= i <= tags@.len(),
            best == best_tag(tags@, i as nat),
            best < i,
            best_votes == votes(tags@[best as int]),
        decreases tags@.len() - i,
    {
        let v: i64 = match tags[i].count {
            Some(c) => c,
            None => 0,
        };
        if v >= best_votes {
            best = i;
            best_votes = v;
        }
        i += 1;
    }
    proof {
        lemma_best_tag_in_range(tags@, tags@.len());
    }
    match &tags[best].name {
        Some(n) => Some(title_case(n.as_str())),
        None => None,
    }
}

/// The first `n` characters of `s` (all of it when shorter).
pub open spec fn take_chars(s: Seq<char>, n: nat) -> Seq<char> {
    if s.len() <= n {
        s
    } else {
        s.take(n as int)
    }
}

/// What the lookup keeps of a MusicBrainz search: the artist id, canonical
/// name, country, formed year, genre and native-script name.
pub struct MbSummary {
    pub mbid: Option<String>,
    pub canonical: String,
    pub country: Option<String>,
    pub formed: Option<String>,
    pub genre: Option<String>,
    pub native_alias: Option<String>,
}

/// The country of an artist: its own country code, else its area's name.
pub open spec fn country_spec(a: MbArtist) -> Option<Seq<char>> {
    if a.country is Some {
        opt_view(a.country)
    } else {
        opt_view(a.area_name)
    }
}

/// The language whose Wikipedia an artist from `country` is looked up in.
pub open spec fn native_lang(country: Option<Seq<char>>) -> Option<Seq<char>> {
    match country {
        Some(c) => lang_code(upper_all(c)),
        None => None,
    }
}

/// Summarises the first hit `a` of a MusicBrainz search for `query` (no hit
/// keeps the query as the name and knows nothing else).
pub fn summarize(a: &Option<MbArtist>, query: &str) -> (s: MbSummary)
    ensures
        match a {
            None => {
                &&& s.mbid is None
                &&& s.canonical@ == query@
                &&& s.country is None
                &&& s.formed is None
                &&& s.genre is None
                &&& s.native_alias is None
            },
            Some(a) => {
                &&& opt_view(s.mbid) == opt_view(a.id)
                &&& s.canonical@ == match a.name {
                    Some(n) => n@,
                    None => query@,
                }
                &&& opt_view(s.country) == country_spec(*a)
                &&& opt_view(s.formed) == match a.begin {
                    Some(b) => Some(take_chars(b@, 4)),
                    None => None,
                }
                &&& opt_view(s.genre) == top_tag_spec(a.tags@)
                &&& opt_view(s.native_alias) == match native_lang(country_spec(*a)) {
                    Some(lang) => alias_spec(a.aliases@, lang),
                    None => None,
                }
            },
        },
{
    match a {
        None => MbSummary {
            mbid: None,
            canonical: crate::text::string_from(query),
            country: None,
            formed: None,
            genre: None,
            native_alias: None,
        },
        Some(a) => {
            let mbid = match &a.id {
                Some(id) => Some(id.clone()),
                None => None,
            };
            let canonical = match &a.name {
                Some(n) => n.clone(),
                None => crate::text::string_from(query),
            };
            let country = match &a.country {
                Some(c) => Some(c.clone()),
                None => match &a.area_name {
                    Some(n) => Some(n.clone()),
                    None => None,
                },
            };
            let formed = match &a.begin {
                Some(b) => {
                    let cs = chars_of(b.as_str());
                    let n: usize = if cs.len() < 4 { cs.len() } else { 4 };
                    assert(take_chars(b@, 4) == cs@.subrange(0, n as int));
                    Some(string_of(vstd::slice::slice_subrange(cs.as_slice(), 0, n)))
                },
                None => None,
            };
            let native_alias = match &country {
                Some(c) => match country_wiki_lang(c.as_str()) {
                    Some(lang) => alias_for_locale(&a.aliases, lang),
                    None => None,
                },
                None => None,
            };
            MbSummary { mbid, canonical, country, formed, genre: top_tag(&a.tags), native_alias }
        },
    }
}

// ---- the bio lookup ------------------------------------------------------

/// Whether some name in `names` is relevant to the page title.
pub open spec fn any_relevant(title: Seq<char>, names: Seq<String>) -> bool {
    exists|k: int| 0 <= k < names.len() && relevant_spec(title, #[trigger] names[k]@)
}

/// A fetched page's extract, kept only when its (redirect-resolved) title
/// plausibly belongs to one of `names`, so a stray redirect to an unrelated
/// article is never shown as the artist's bio.
pub fn guarded(resolved: &str, extract: String, names: &Vec<String>) -> (r: Option<String>)
    ensures
        r is Some <==> any_relevant(resolved@, names@),
        r is Some ==> r->0@ == extract@,
{
    let mut i: usize = 0;
    while i < names.len()
        invariant
            i <= names@.len(),
            forall|k: int| 0 <= k < i ==> !relevant_spec(resolved@, #[trigger] names@[k]@),
        decreases names@.len() - i,
    {
        if name_relevant(resolved, names[i].as_str()) {
            return Some(extract);
        }
        i += 1;
    }
    None
}

/// Where the next bio attempt comes from.
#[derive(Clone, Copy, PartialEq, Eq, Debug)]
pub enum BioSource {
    /// The English page titled with the canonical name, title-checked.
    EnglishTitle,
    /// The native-language page titled with the native-script name.
    NativeAlias,
    /// A title-checked search of the native-language Wikipedia.
    NativeSearch,
    /// The page MusicBrainz links through Wikidata.
    Wikidata,
    /// A last-resort, title-checked English search.
    EnglishSearch,
}

/// The bio attempt after `last` (`None`: nothing tried yet), given whether a
/// bio was found, whether the artist has a native language other than English,
/// a native-script name, and a MusicBrainz id. `None` means stop.
pub open spec fn next_bio_spec(
    last: Option<BioSource>,
    found: bool,
    native: bool,
    alias: bool,
    mbid: bool,
) -> Option<BioSource> {
    let after_native = if mbid {
        BioSource::Wikidata
    } else {
        BioSource::EnglishSearch
    };
    if found {
        None
    } else {
        match last {
            None => Some(BioSource::EnglishTitle),
            Some(BioSource::EnglishTitle) => Some(
                if native && alias {
                    BioSource::NativeAlias
                } else if native {
                    BioSource::NativeSearch
                } else {
                    after_native
                },
            ),
            Some(BioSource::NativeAlias) => Some(BioSource::NativeSearch),
            Some(BioSource::NativeSearch) => Some(after_native),
            Some(BioSource::Wikidata) => Some(BioSource::EnglishSearch),
            Some(BioSource::EnglishSearch) => None,
        }
    }
}

/// Decides the next bio attempt. The order never shows a guessed article
/// before a title-checked one: English by title, then the native language
/// (by native-script name, then by search), then the Wikidata link, then an
/// English search.
pub fn next_bio_source(
    last: Option<BioSource>,
    found: bool,
    native: bool,
    alias: bool,
    mbid: bool,
) -> (r: Option<BioSource>)
    ensures
        r == next_bio_spec(last, found, native, alias, mbid),
{
    let after_native = if mbid {
        BioSource::Wikidata
    } else {
        BioSource::EnglishSearch
    };
    if found {
        return None;
    }
    match last {
        None => Some(BioSource::EnglishTitle),
        Some(BioSource::EnglishTitle) => Some(
            if native && alias {
                BioSource::NativeAlias
            } else if native {
                BioSource::NativeSearch
            } else {
                after_native
            },
        ),
        Some(BioSource::NativeAlias) => Some(BioSource::NativeSearch),
        Some(BioSource::NativeSearch) => Some(after_native),
        Some(BioSource::Wikidata) => Some(BioSource::EnglishSearch),
        Some(BioSource::EnglishSearch) => None,
    }
}

/// The info shown for an artist, or `None` when nothing at all is known.
pub fn assemble_info(
    canonical: String,
    bio: String,
    genre: Option<String>,
    formed: Option<String>,
    country: Option<String>,
) -> (r: Option<ArtistInfo>)
    ensures
        r is None <==> (bio@.len() == 0 && genre is None && country is None && formed is None),
        r is Some ==> {
            let i = r->0;
            &&& i.name@ == canonical@
            &&& i.bio@ == bio@
            &&& opt_view(i.genre) == opt_view(genre)
            &&& opt_view(i.formed) == opt_view(formed)
            &&& opt_view(i.country) == opt_view(country)
            &&& i.style is None
        },
{
    if bio.as_str().unicode_len() == 0 && genre.is_none() && country.is_none() && formed.is_none() {
        return None;
    }
    Some(ArtistInfo { name: canonical, bio, genre, formed, country, style: None })
}


/// One MusicBrainz url relation: its type and the linked resource.
pub struct Relation {
    pub kind: Option<String>,
    pub resource: Option<String>,
}

/// The Wikidata id of the first `wikidata` relation whose resource is a valid
/// Wikidata URL.
pub open spec fn relation_qid_spec(rels: Seq<Relation>) -> Option<Seq<char>>
    decreases rels.len(),
{
    if rels.len() == 0 {
        None
    } else {
        let r = rels[0];
        if r.kind is Some && r.kind->0@ == "wikidata"@ && r.resource is Some && qid_spec(
            r.resource->0@,
        ) is Some {
            qid_spec(r.resource->0@)
        } else {
            relation_qid_spec(rels.subrange(1, rels.len() as int))
        }
    }
}

/// The Wikidata entity MusicBrainz links for an artist, from its url
/// relations.
pub fn pick_wikidata_qid(rels: &Vec<Relation>) -> (r: Option<String>)
    ensures
        opt_view(r) == relation_qid_spec(rels@),
{
    let mut i: usize = 0;
    assert(rels@.subrange(0, rels@.len() as int) == rels@);
    while i < rels.len()
        invariant
            i <= rels@.len(),
            relation_qid_spec(rels@) == relation_qid_spec(
                rels@.subrange(i as int, rels@.len() as int),
            ),
        decreases rels@.len() - i,
    {
        let ghost rest = rels@.subrange(i as int, rels@.len() as int);
        assert(rest[0] == rels@[i as int]);
        assert(rest.subrange(1, rest.len() as int) == rels@.subrange(i + 1, rels@.len() as int));
        let r = &rels[i];
        if let (Some(kind), Some(res)) = (&r.kind, &r.resource) {
            if str_eq(kind.as_str(), "wikidata") {
                if let Some(q) = wikidata_qid_from_url(res.as_str()) {
                    return Some(q);
                }
            }
        }
        i += 1;
    }
    None
}

/// An empty name is never relevant to any title: no bio rather than a false
/// positive.
pub proof fn lemma_empty_name_never_relevant(title: Seq<char>)
    ensures
        !relevant_spec(title, Seq::empty()),
{
    assert(fold_spec(Seq::<char>::empty()) == Seq::<char>::empty());
}

/// The position of a bio source in the lookup order.
pub open spec fn bio_rank(s: BioSource) -> int {
    match s {
        BioSource::EnglishTitle => 0,
        BioSource::NativeAlias => 1,
        BioSource::NativeSearch => 2,
        BioSource::Wikidata => 3,
        BioSource::EnglishSearch => 4,
    }
}

/// The lookup only ever moves forward through the order, starts with the
/// title-checked English page, stops once a bio is found, and ends after the
/// English search, so it tries each source at most once.
pub proof fn lemma_bio_order(
    last: Option<BioSource>,
    found: bool,
    native: bool,
    alias: bool,
    mbid: bool,
)
    ensures
        found ==> next_bio_spec(last, found, native, alias, mbid) is None,
        !found && last is None ==> next_bio_spec(last, found, native, alias, mbid) == Some(
            BioSource::EnglishTitle,
        ),
        last is Some && next_bio_spec(last, found, native, alias, mbid) is Some ==> bio_rank(
            last->0,
        ) < bio_rank(next_bio_spec(last, found, native, alias, mbid)->0),
        next_bio_spec(last, found, native, alias, mbid) == Some(BioSource::NativeAlias) ==> native
            && alias,
        next_bio_spec(last, found, native, alias, mbid) == Some(BioSource::Wikidata) ==> mbid,
{
}

/// The language to look for a native-language bio in: the country's
/// Wikipedia language `native`, unless it is English, whose page is always
/// tried first anyway.
pub fn native_bio_lang(native: Option<&'static str>) -> (r: Option<&'static str>)
    ensures
        r == match native {
            Some(l) => if l@ == "en"@ {
                None
            } else {
                Some(l)
            },
            None => None,
        },
{
    match native {
        Some(l) => if crate::text::str_eq(l, "en") {
            None
        } else {
            Some(l)
        },
        None => None,
    }
}

/// `c` is an accented lowercase Latin letter whose plain ASCII letter is
/// `b`.
pub open spec fn latin_variant(c: char, b: char) -> bool {
    ||| b == 'a' && (c == 'ą' || c == 'ă' || c == 'ā' || c == 'å' || c == 'ä' || c == 'ã'
        || c == 'â' || c == 'á' || c == 'à')
    ||| b == 'c' && (c == 'č' || c == 'ć' || c == 'ç')
    ||| b == 'e' && (c == 'ę' || c == 'ė' || c == 'ē' || c == 'ë' || c == 'ê' || c == 'é'
        || c == 'è')
    ||| b == 'i' && (c == 'į' || c == 'ī' || c == 'ï' || c == 'î' || c == 'í' || c == 'ì')
    ||| b == 'n' && (c == 'ń' || c == 'ñ')
    ||| b == 'o' && (c == 'ō' || c == 'ø' || c == 'ö' || c == 'õ' || c == 'ô' || c == 'ó'
        || c == 'ò')
    ||| b == 'u' && (c == 'ū' || c == 'ü' || c == 'û' || c == 'ú' || c == 'ù')
    ||| b == 'y' && (c == 'ÿ' || c == 'ý')
    ||| b == 's' && c == 'ß'
}

/// De-accenting takes every accented letter to its plain ASCII letter,
/// leaves plain ASCII letters and digits as they are, and never yields
/// anything but the character itself or a plain lowercase letter.
pub proof fn lemma_deaccent_gives_the_ascii_base(c: char, b: char)
    ensures
        latin_variant(c, b) ==> deaccent_spec(c) == b,
        ('a' <= c <= 'z' || '0' <= c <= '9') ==> deaccent_spec(c) == c,
        deaccent_spec(c) == c || ('a' <= deaccent_spec(c) <= 'z'),
{
}

/// Folding ignores accents: a name folds to the same key as its spelling
/// with accented letters replaced by their plain letters (where lowercasing
/// leaves those letters as they are), so "Beyoncé" and "Beyonce" match the
/// same titles.
pub proof fn lemma_fold_ignores_accents(s: Seq<char>, t: Seq<char>, title: Seq<char>)
    requires
        s.len() == t.len(),
        forall|i: int|
            0 <= i < s.len() ==> #[trigger] s[i] == t[i] || (latin_variant(s[i], t[i])
                && lower_of(s[i]) == seq![s[i]] && lower_of(t[i]) == seq![t[i]]),
    ensures
        fold_spec(s) == fold_spec(t),
        relevant_spec(title, s) == relevant_spec(title, t),
        relevant_spec(s, title) == relevant_spec(t, title),
    decreases s.len(),
{
    if s.len() > 0 {
        let (s1, t1) = (s.drop_last(), t.drop_last());
        assert forall|i: int| 0 <= i < s1.len() implies #[trigger] s1[i] == t1[i] || (
        latin_variant(s1[i], t1[i]) && lower_of(s1[i]) == seq![s1[i]] && lower_of(t1[i])
            == seq![t1[i]]) by {
            assert(s1[i] == s[i] && t1[i] == t[i]);
        }
        lemma_fold_ignores_accents(s1, t1, title);
        let (c, d) = (s.last(), t.last());
        if c != d {
            lemma_deaccent_gives_the_ascii_base(c, d);
            lemma_deaccent_gives_the_ascii_base(d, d);
            assert(seq![c].drop_last() =~= Seq::<char>::empty());
            assert(seq![d].drop_last() =~= Seq::<char>::empty());
            assert(keep_alnum(lower_of(c)) == keep_alnum(lower_of(d)));
        }
    }
}

} // verus!
