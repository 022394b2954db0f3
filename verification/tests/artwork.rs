use lyrfin::artwork::{
    artist_cache_name, cover_cache_name, deezer_pick, fold, slug, ArtKey, DeezerArtist,
};

#[test]
fn remote_art_key_is_stable_per_url() {
    let a = ArtKey::remote("https://i.scdn.co/image/abc");
    let b = ArtKey::remote("https://i.scdn.co/image/abc");
    let c = ArtKey::remote("https://i.scdn.co/image/xyz");
    assert_eq!(a, b, "same URL → same key");
    assert_ne!(a, c, "different URL → different key");
    assert!(matches!(a, ArtKey::Remote(_)));
}

#[test]
fn name_folding_matches_across_punctuation_and_case() {
    assert_eq!(fold("The Beatles!"), fold("the beatles"));
    assert_eq!(fold("AC/DC"), "acdc");
    assert_ne!(fold("Wham"), fold("Whamageddon"), "no loose substring match");
    assert_eq!(slug("AC/DC"), "acdc");
    assert_eq!(slug("***"), "_");
}

#[test]
fn keys_live_in_their_own_buckets() {
    let url = "https://i.scdn.co/image/abc";
    assert_ne!(ArtKey::square(url), ArtKey::remote(url));
    assert!(matches!(ArtKey::artist_name("Radiohead"), ArtKey::ArtistName(_)));
    let base = ArtKey::remote(url);
    assert_eq!(ArtKey::peek(base, 3), ArtKey::peek(base, 3));
    assert_ne!(ArtKey::peek(base, 3), ArtKey::peek(base, 4));
    assert_eq!(ArtKey::solid(0x112233, true), ArtKey::solid(0x112233, true));
    assert_ne!(ArtKey::solid(0x112233, true), ArtKey::solid(0x112233, false));
}

#[test]
fn slugs_are_cut_to_64_characters() {
    let long = "a".repeat(100);
    assert_eq!(slug(&long).chars().count(), 64);
    assert_eq!(artist_cache_name("AC/DC"), "acdc.jpg");
}

#[test]
fn cover_names_are_sixteen_hex_digits_of_the_url_hash() {
    let n = cover_cache_name("https://x/y.jpg");
    assert_eq!(n.len(), 16);
    assert!(n.chars().all(|c| c.is_ascii_hexdigit() && !c.is_ascii_uppercase()));
    assert_eq!(n, cover_cache_name("https://x/y.jpg"));
    assert_ne!(n, cover_cache_name("https://x/z.jpg"));
}

fn hit(name: &str, fans: i64, xl: Option<&str>) -> DeezerArtist {
    DeezerArtist {
        name: Some(name.into()),
        fans: Some(fans),
        picture_xl: Some(xl.map(|s| s.to_string())),
        picture_big: Some(Some("big".into())),
    }
}

#[test]
fn deezer_takes_the_best_matching_name_only() {
    let hits = vec![
        hit("Other Band", 9_000_000, Some("wrong")),
        hit("AC/DC", 10, Some("small")),
        hit("ac dc", 500, Some("right")),
    ];
    assert_eq!(deezer_pick(&hits, "AC/DC"), Some("right".into()));
    assert_eq!(deezer_pick(&hits, "Nobody"), None);
    let no_xl = vec![DeezerArtist {
        name: Some("X".into()),
        fans: None,
        picture_xl: None,
        picture_big: Some(Some("big".into())),
    }];
    assert_eq!(deezer_pick(&no_xl, "x"), Some("big".into()));
    let empty_pic = vec![hit("X", 1, Some(""))];
    assert_eq!(deezer_pick(&empty_pic, "x"), None);
}
