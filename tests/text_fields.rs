use brainiac::generator::{genre_options_text, guideline_text, limitation_text, OutputGenerator};
use brainiac::model::{ArticleGenre, ResponseOutputType, GENRE_COUNT};
use brainiac::text::{sanitize_string, split_commas};

const KINDS: [ResponseOutputType; 4] = [
    ResponseOutputType::Title,
    ResponseOutputType::Description,
    ResponseOutputType::Genre,
    ResponseOutputType::Keywords,
];

#[test]
fn sanitize_strips_control_characters() {
    let s = sanitize_string("Cats: A Short Article\n".to_string());
    assert_eq!(s, "Cats: A Short Article");
    let s = sanitize_string("a\tb\r\nc".to_string());
    assert_eq!(s, "abc");
}

#[test]
fn sanitize_is_idempotent() {
    let once = sanitize_string("x\n\ty\rz ".to_string());
    let twice = sanitize_string(once.clone());
    assert_eq!(once, twice);
    assert!(!once.contains('\n') && !once.contains('\r') && !once.contains('\t'));
}

#[test]
fn sanitize_keeps_empty() {
    assert_eq!(sanitize_string(String::new()), "");
    assert_eq!(sanitize_string("\n\n".to_string()), "");
}

#[test]
fn limitations_differ_per_kind() {
    for (i, a) in KINDS.iter().enumerate() {
        for b in KINDS.iter().skip(i + 1) {
            assert_ne!(limitation_text(*a), limitation_text(*b));
        }
    }
}

#[test]
fn genre_limitation_lists_every_genre() {
    let text = limitation_text(ResponseOutputType::Genre);
    for i in 0..GENRE_COUNT {
        assert!(text.contains(ArticleGenre::from_index(i).as_str()));
    }
    assert_eq!(
        genre_options_text(),
        "NEWS, TECHNOLOGY, HEALTH, SPORTS, ENTERTAINMENT, BUSINESS, SCIENCE, EDUCATION, LIFESTYLE, TRAVEL, FOOD, POLITICS, OPINION, HISTORY, ART"
    );
}

#[test]
fn generator_request_needs_content() {
    let mut g = OutputGenerator::new("deepseek-r1:8b".to_string());
    assert!(g.output_request(ResponseOutputType::Title).is_none());
    g.set_content("A short article about cats.".to_string());
    let req = g.output_request(ResponseOutputType::Title).unwrap();
    assert_eq!(req.model, "deepseek-r1:8b");
    assert_eq!(
        req.prompt,
        "What should be the title of this article?\nThe title should be at most 10 words."
    );
    assert_eq!(
        req.system.unwrap(),
        "You are an editor at major publishing company. The following article has just arrived at your desk.\n###Article:\nA short article about cats."
    );
    assert!(!req.json_format);
    assert_eq!(guideline_text(ResponseOutputType::Keywords), "What are some keywords that describe this article?");
}

#[test]
fn split_at_commas() {
    assert_eq!(split_commas("a, b,c"), vec!["a", " b", "c"]);
    assert_eq!(split_commas(""), vec![""]);
    assert_eq!(split_commas("x,"), vec!["x", ""]);
}
