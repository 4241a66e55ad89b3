use brainiac::error::BrainiacError;
use brainiac::metadata::{
    create_output_file_name, document_text, frame_front_matter, get_analytics_data, make_slug,
    month_length, AnalyticsData, CalendarDate,
};
use brainiac::model::{ArticleGenre, ResponseOutputType};
use brainiac::run::BrainiacAppend;
use brainiac::pipeline::{Action, Pipeline, Stage};

fn expect_generate(p: &Pipeline, k: ResponseOutputType) {
    match p.next_action() {
        Action::Generate(j) => assert_eq!(j, k),
        _ => panic!("expected a generate action"),
    }
}

fn expect_format(p: &Pipeline, k: ResponseOutputType) -> String {
    match p.next_action() {
        Action::Format(j, text) => {
            assert_eq!(j, k);
            text
        }
        _ => panic!("expected a format action"),
    }
}

#[test]
fn cats_article_end_to_end() {
    let mut p = Pipeline::new();
    expect_generate(&p, ResponseOutputType::Title);
    p.on_generated("Cats: A Short Article\n".to_string());
    assert_eq!(expect_format(&p, ResponseOutputType::Title), "Cats: A Short Article");
    assert!(p.on_formatted(r#"{"response":"Cats: A Short Article"}"#).is_ok());

    expect_generate(&p, ResponseOutputType::Description);
    p.on_generated("An article\tabout cats.".to_string());
    assert_eq!(expect_format(&p, ResponseOutputType::Description), "An articleabout cats.");
    assert!(p.on_formatted(r#"{"response":"An article about cats."}"#).is_ok());

    expect_generate(&p, ResponseOutputType::Genre);
    p.on_generated("Lifestyle".to_string());
    expect_format(&p, ResponseOutputType::Genre);
    assert!(p.on_formatted(r#"{"response":"LIFESTYLE"}"#).is_ok());

    expect_generate(&p, ResponseOutputType::Keywords);
    p.on_generated("cats, pets".to_string());
    expect_format(&p, ResponseOutputType::Keywords);
    assert!(p.on_formatted(r#"{"response":["cats","pets"]}"#).is_ok());

    assert_eq!(p.stage(), Stage::Done);
    assert!(matches!(p.next_action(), Action::Finish));
    let analytics = AnalyticsData { reading_time_in_minutes: 1, length_in_words: 5 };
    let date = CalendarDate { year: 2024, month: 3, day: 9 };
    let m = p.finish("Jane".to_string(), analytics, date);
    assert_eq!(m.title, "Cats: A Short Article");
    assert_eq!(m.slug, "cats-a-short-article");
    assert_eq!(m.description, "An article about cats.");
    assert_eq!(m.author, "Jane");
    assert_eq!(m.interest.genre, ArticleGenre::Lifestyle);
    assert_eq!(m.interest.keywords, vec!["cats", "pets"]);
    assert!(m.interest.related_articles.is_empty());
    assert_eq!(m.analytics.created_at, date);
    assert_eq!(m.analytics.length_in_words, 5);
    assert_eq!(m.analytics.reading_time_in_minutes, 1);
}

#[test]
fn unreadable_title_aborts_the_run() {
    let mut p = Pipeline::new();
    p.on_generated("Cats".to_string());
    let r = p.on_formatted("Cats: not json");
    match r {
        Err(BrainiacError::ParseError(raw, k)) => {
            assert_eq!(raw, "Cats: not json");
            assert_eq!(k, ResponseOutputType::Title);
        }
        _ => panic!("expected a parse error"),
    }
    assert_eq!(p.stage(), Stage::Failed(ResponseOutputType::Title));
    assert!(matches!(p.next_action(), Action::Abort(ResponseOutputType::Title)));
}

#[test]
fn unknown_genre_is_not_an_error() {
    let mut p = Pipeline::new();
    for raw in [r#"{"response":"T"}"#, r#"{"response":"D"}"#] {
        p.on_generated("x".to_string());
        assert!(p.on_formatted(raw).is_ok());
    }
    p.on_generated("x".to_string());
    assert!(p.on_formatted(r#"{"response":"sciencefiction"}"#).is_ok());
    assert_eq!(p.stage(), Stage::Generating(ResponseOutputType::Keywords));
    p.on_generated("x".to_string());
    assert!(p.on_formatted(r#"{"response":"not a list"}"#).is_err());
    assert_eq!(p.stage(), Stage::Failed(ResponseOutputType::Keywords));
}

#[test]
fn service_error_stops_the_run() {
    let mut p = Pipeline::new();
    p.on_service_error();
    assert_eq!(p.stage(), Stage::Failed(ResponseOutputType::Title));
}

#[test]
fn slug_and_file_name() {
    assert_eq!(make_slug("Cats: A Short Article"), "cats-a-short-article");
    assert_eq!(make_slug("  Hello,  World!  "), "hello-world");
    let slug = "cats-a-short-article".to_string();
    assert_eq!(create_output_file_name(&slug), "cats-a-short-article.md");
}

#[test]
fn analytics_from_text() {
    let a = get_analytics_data("abcd abcd abcd abcd");
    assert_eq!(a.length_in_words, 4);
    assert_eq!(a.reading_time_in_minutes, 0);
    let long = "abcd ".repeat(600);
    let a = get_analytics_data(&long);
    assert_eq!(a.length_in_words, 600);
    assert_eq!(a.reading_time_in_minutes, 2);
}

#[test]
fn today_is_a_valid_date() {
    let d = CalendarDate::today();
    assert!(1 <= d.month && d.month <= 12);
    assert!(1 <= d.day && d.day <= 31);
    assert!(d.year >= 2024);
}

#[test]
fn front_matter_framing() {
    let m = frame_front_matter("title = \"Cats\"");
    assert_eq!(m, "+++\ntitle = \"Cats\"\n+++\n");
    assert_eq!(document_text(&m, "Body"), "+++\ntitle = \"Cats\"\n+++\n\nBody");
}

#[test]
fn error_messages() {
    let e = BrainiacError::OllamaDetailedError("down".to_string(), Some("p".to_string()));
    assert_eq!(e.message(), "OllamaError: down\nPrompt: p");
    let e = BrainiacError::OllamaError("down".to_string());
    assert_eq!(e.message(), "OllamaError: down");
    let e = BrainiacError::IoError("missing".to_string());
    assert_eq!(e.message(), "IoError: missing");
    let e = BrainiacError::ParseError("x".to_string(), ResponseOutputType::Genre);
    assert_eq!(e.message(), "ParseError: the genre response could not be read: x");
    let e = BrainiacError::InvalidInput("an author must be named".to_string());
    assert_eq!(e.message(), "InvalidInput: an author must be named");
    let e = BrainiacError::PromptTooLarge(3);
    assert!(e.message().starts_with("PromptTooLargeError"));
}

#[test]
fn run_parameters_default_models() {
    let p = BrainiacAppend {
        source_path: "a.md".to_string(),
        output_dir_path: None,
        gen_model: None,
        format_model: Some("m".to_string()),
        author: String::new(),
    };
    assert_eq!(p.generation_model(), "deepseek-r1:8b");
    assert_eq!(p.formatting_model(), "m");
    assert!(!p.is_valid());
}

#[test]
fn calendar_dates_must_exist() {
    assert!(CalendarDate::new(2024, 2, 29).is_some());
    assert!(CalendarDate::new(2023, 2, 29).is_none());
    assert!(CalendarDate::new(2000, 2, 29).is_some());
    assert!(CalendarDate::new(1900, 2, 29).is_none());
    assert!(CalendarDate::new(2024, 4, 31).is_none());
    assert!(CalendarDate::new(2024, 13, 1).is_none());
    assert!(CalendarDate::new(2024, 12, 31).is_some());
    assert_eq!(month_length(2024, 2), 29);
    let d = CalendarDate::today();
    assert!(d.day <= month_length(d.year, d.month));
}
