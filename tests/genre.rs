use brainiac::model::{lookup_genre, resolve_genre, ArticleGenre, GENRE_COUNT};

#[test]
fn resolves_upper_case_name() {
    assert_eq!(resolve_genre("TECHNOLOGY"), ArticleGenre::Technology);
}

#[test]
fn unknown_genre_falls_back_to_opinion() {
    assert_eq!(resolve_genre("sciencefiction"), ArticleGenre::Opinion);
}

#[test]
fn resolves_any_ascii_case() {
    assert_eq!(resolve_genre("technology"), ArticleGenre::Technology);
    assert_eq!(resolve_genre("History"), ArticleGenre::History);
    assert_eq!(resolve_genre("aRt"), ArticleGenre::Art);
}

#[test]
fn empty_or_partial_name_is_default() {
    assert_eq!(resolve_genre(""), ArticleGenre::Opinion);
    assert_eq!(resolve_genre("TECH"), ArticleGenre::Opinion);
    assert_eq!(resolve_genre(" NEWS"), ArticleGenre::Opinion);
}

#[test]
fn every_canonical_name_resolves_to_its_genre() {
    for i in 0..GENRE_COUNT {
        let g = ArticleGenre::from_index(i);
        assert_eq!(resolve_genre(g.as_str()), g);
    }
}

#[test]
fn canonical_names_are_upper_case() {
    assert_eq!(ArticleGenre::News.as_str(), "NEWS");
    assert_eq!(ArticleGenre::Entertainment.as_str(), "ENTERTAINMENT");
    assert_eq!(ArticleGenre::default(), ArticleGenre::Opinion);
}

#[test]
fn resolution_upper_cases_unicode() {
    assert_eq!(resolve_genre("\u{17f}cience"), ArticleGenre::Science);
    assert_eq!(resolve_genre("pol\u{131}t\u{131}cs"), ArticleGenre::Politics);
}

#[test]
fn lookup_is_exact() {
    assert_eq!(lookup_genre("SCIENCE"), ArticleGenre::Science);
    assert_eq!(lookup_genre("science"), ArticleGenre::Opinion);
    assert_eq!(lookup_genre("ART"), ArticleGenre::Art);
}
