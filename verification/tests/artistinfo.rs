use lyrfin::artistinfo::native_bio_lang;
use lyrfin::artistinfo::{
    assemble_info, country_wiki_lang, extract_first_titled, guarded, name_relevant,
    next_bio_source, sitelink_pick, summarize, title_case, top_tag, wikidata_qid_from_url,
    Alias, BioSource, MbArtist, SiteLink, Tag, WikiPage,
};

#[test]
fn country_maps_to_the_native_wikipedia_language() {
    assert_eq!(country_wiki_lang("TW"), Some("zh"));
    assert_eq!(country_wiki_lang("cn"), Some("zh")); // case-insensitive
    assert_eq!(country_wiki_lang("IL"), Some("he"));
    assert_eq!(country_wiki_lang("EG"), Some("ar"));
    assert_eq!(country_wiki_lang("JP"), Some("ja"));
    assert_eq!(country_wiki_lang("US"), None);
    assert_eq!(country_wiki_lang("ZZ"), None);
}

#[test]
fn name_relevance_accepts_the_artist_and_rejects_a_collision() {
    assert!(!name_relevant("The Transporter Refueled", "Maïssa"));
    assert!(name_relevant("Maïssa (singer)", "Maïssa"));
    assert!(name_relevant("Maissa", "Maïssa"));
    assert!(name_relevant("Boards of Canada", "Boards of Canada"));
    assert!(name_relevant("The Midnight (band)", "The Midnight"));
    assert!(!name_relevant("Anything", ""));
}

#[test]
fn wikidata_qid_is_parsed_only_from_a_valid_url() {
    assert_eq!(
        wikidata_qid_from_url("https://www.wikidata.org/wiki/Q12345"),
        Some("Q12345".into())
    );
    assert_eq!(
        wikidata_qid_from_url("https://www.wikidata.org/wiki/Q12345/"),
        Some("Q12345".into())
    );
    assert_eq!(
        wikidata_qid_from_url("https://example.com/wiki/NotAnId"),
        None
    );
    assert_eq!(
        wikidata_qid_from_url("https://www.wikidata.org/wiki/P31"),
        None
    );
}

fn alias(name: &str, locale: &str) -> Alias {
    Alias { name: Some(name.into()), locale: Some(locale.into()) }
}

#[test]
fn alias_for_locale_picks_the_native_script_name() {
    let aliases = vec![alias("Dingding", "en"), alias("丁噹", "zh-Hant")];
    assert_eq!(lyrfin::artistinfo::alias_for_locale(&aliases, "zh"), Some("丁噹".to_string()));
    assert_eq!(lyrfin::artistinfo::alias_for_locale(&aliases, "ja"), None);
}

#[test]
fn disambiguation_and_empty_pages_are_skipped() {
    let disambig = vec![WikiPage {
        title: Some("Maïssa".into()),
        extract: Some("Maïssa may refer to:".into()),
        disambiguation: true,
    }];
    assert!(extract_first_titled(&disambig).is_none());
    let good = vec![
        WikiPage { title: Some("Blank".into()), extract: Some("  \n ".into()), disambiguation: false },
        WikiPage {
            title: Some("Maïssa (singer)".into()),
            extract: Some(" Maïssa is a French singer.\n".into()),
            disambiguation: false,
        },
    ];
    assert_eq!(
        extract_first_titled(&good),
        Some(("Maïssa (singer)".into(), "Maïssa is a French singer.".into()))
    );
}

fn link(key: &str, title: &str) -> SiteLink {
    SiteLink { key: key.into(), title: Some(title.into()) }
}

#[test]
fn sitelink_prefers_english_then_native_then_any() {
    let links = vec![
        link("commonswiki", "Category:Radiohead"),
        link("enwiki", "Radiohead"),
        link("frwiki", "Radiohead (FR)"),
    ];
    assert_eq!(sitelink_pick(&links, Some("fr")), Some(("en".into(), "Radiohead".into())));
    let native_only = vec![link("commonswiki", "Category:Maïssa"), link("frwiki", "Maïssa")];
    assert_eq!(sitelink_pick(&native_only, Some("fr")), Some(("fr".into(), "Maïssa".into())));
    let any = vec![link("commonswiki", "Category:X"), link("dewiki", "Künstler")];
    assert_eq!(sitelink_pick(&any, Some("fr")), Some(("de".into(), "Künstler".into())));
    let none = vec![link("commonswiki", "Category:X"), link("specieswiki", "Y"), link("wiki", "Z")];
    assert_eq!(sitelink_pick(&none, None), None);
}

#[test]
fn title_case_capitalises_each_word() {
    assert_eq!(title_case("hip hop"), "Hip Hop");
    assert_eq!(title_case("  two  spaces"), "  Two  Spaces");
    assert_eq!(title_case(""), "");
}

fn tag(name: &str, count: i64) -> Tag {
    Tag { name: Some(name.into()), count: Some(count) }
}

#[test]
fn top_tag_takes_the_last_most_voted() {
    assert_eq!(top_tag(&vec![tag("rock", 3), tag("pop", 5), tag("jazz", 5)]), Some("Jazz".into()));
    assert_eq!(top_tag(&vec![]), None);
    assert_eq!(
        top_tag(&vec![Tag { name: Some("folk".into()), count: None }, tag("noise", -1)]),
        Some("Folk".into())
    );
}

#[test]
fn summary_of_a_musicbrainz_hit() {
    let hit = MbArtist {
        id: Some("mbid-1".into()),
        name: Some("Dingding".into()),
        country: None,
        area_name: Some("TW".into()),
        begin: Some("1981-06-13".into()),
        tags: vec![tag("mandopop", 2)],
        aliases: vec![alias("丁噹", "zh-Hant")],
    };
    let s = summarize(&Some(hit), "dingding");
    assert_eq!(s.mbid.as_deref(), Some("mbid-1"));
    assert_eq!(s.canonical, "Dingding");
    assert_eq!(s.country.as_deref(), Some("TW"));
    assert_eq!(s.formed.as_deref(), Some("1981"));
    assert_eq!(s.genre.as_deref(), Some("Mandopop"));
    assert_eq!(s.native_alias.as_deref(), Some("丁噹"));
    let none = summarize(&None, "nobody");
    assert_eq!(none.canonical, "nobody");
    assert!(none.mbid.is_none() && none.genre.is_none());
}

#[test]
fn guarded_pages_need_a_relevant_title() {
    let names = vec!["Maïssa".to_string()];
    assert_eq!(guarded("Maïssa (singer)", "bio".into(), &names), Some("bio".into()));
    assert_eq!(guarded("The Transporter Refueled", "film".into(), &names), None);
}

#[test]
fn bio_sources_are_tried_in_order() {
    assert_eq!(next_bio_source(None, false, true, true, true), Some(BioSource::EnglishTitle));
    assert_eq!(
        next_bio_source(Some(BioSource::EnglishTitle), false, true, true, true),
        Some(BioSource::NativeAlias)
    );
    assert_eq!(
        next_bio_source(Some(BioSource::EnglishTitle), false, true, false, false),
        Some(BioSource::NativeSearch)
    );
    assert_eq!(
        next_bio_source(Some(BioSource::NativeSearch), false, true, true, true),
        Some(BioSource::Wikidata)
    );
    assert_eq!(
        next_bio_source(Some(BioSource::EnglishTitle), false, false, false, false),
        Some(BioSource::EnglishSearch)
    );
    assert_eq!(next_bio_source(Some(BioSource::EnglishSearch), false, true, true, true), None);
    assert_eq!(next_bio_source(Some(BioSource::EnglishTitle), true, true, true, true), None);
}

#[test]
fn nothing_known_means_no_info() {
    assert!(assemble_info("X".into(), String::new(), None, None, None).is_none());
    let i = assemble_info("X".into(), String::new(), None, Some("1999".into()), None).unwrap();
    assert_eq!(i.name, "X");
    assert_eq!(i.formed.as_deref(), Some("1999"));
}

use lyrfin::artistinfo::{pick_wikidata_qid, Relation};

#[test]
fn wikidata_relation_is_picked_from_the_url_rels() {
    let rels = vec![
        Relation { kind: Some("official homepage".into()), resource: Some("https://x.org".into()) },
        Relation { kind: Some("wikidata".into()), resource: Some("https://www.wikidata.org/wiki/P1".into()) },
        Relation { kind: Some("wikidata".into()), resource: Some("https://www.wikidata.org/wiki/Q42".into()) },
    ];
    assert_eq!(pick_wikidata_qid(&rels), Some("Q42".into()));
    assert_eq!(pick_wikidata_qid(&vec![]), None);
}

#[test]
fn english_is_never_the_native_bio_language() {
    assert_eq!(native_bio_lang(Some("en")), None);
    assert_eq!(native_bio_lang(Some("is")), Some("is"));
    assert_eq!(native_bio_lang(None), None);
}
