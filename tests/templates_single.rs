use brainiac::error::BrainiacError;
use brainiac::model::ArticleGenre;
use brainiac::constants::{keyword_examples, select_examples, title_examples};
use brainiac::prompt::SupportedModel;
use brainiac::templates::{
    single_stage_genre, single_stage_list, single_stage_request, single_stage_text,
    AbstractTemplate, GenreTemplate, KeywordTemplate, PromptTemplate,
    TitleTemplate,
};

#[test]
fn select_examples_takes_a_prefix() {
    let v = select_examples(vec!["a", "b", "c"], 2);
    assert_eq!(v, vec!["a", "b"]);
    let v = select_examples(vec!["a", "b", "c"], 0);
    assert_eq!(v, vec!["a", "b", "c"]);
    let v = select_examples(vec!["a", "b"], 5);
    assert_eq!(v, vec!["a", "b"]);
    assert_eq!(title_examples().len(), 5);
    assert_eq!(select_examples(keyword_examples(), 3).len(), 3);
}

#[test]
fn title_template_renders_with_examples() {
    let t = TitleTemplate::new("Body", SupportedModel::Llama3).include_examples();
    let text = t.as_prompt_string().ok().unwrap();
    assert!(text.starts_with("Body\nAnalyze the summary above"));
    assert!(text.ends_with(
        "Examples of good responses are:\n\n~~~\n{\"response\":\"The Girl With The Dragon Tattoo\"}\n~~~\n{\"response\":\"Unwrapping the Intricate Interplay Between Energy Dependency and Macroeconomic Volatility in OECD Countries\"}\n~~~\n{\"response\":\"Evaluating the Role of GDP Per Capita, Air Pollution and Non-Economic Factors in Determining Health Expenditure: Evidence from Asian Region Using Instrumental Variables Techniques\"}\n~~~\n"
    ));
}

#[test]
fn keyword_template_splits_examples() {
    let t = KeywordTemplate::new("Body", SupportedModel::Qwen25).include_examples();
    let text = t.as_prompt_string().ok().unwrap();
    assert!(text.contains("{\"response\":[\"MachineLearning\",\" ArtificialIntelligence\","));
}

#[test]
fn genre_template_lists_genres() {
    let t = GenreTemplate::new("Body", SupportedModel::Llama32);
    let text = t.as_prompt_string().ok().unwrap();
    assert!(text.ends_with("Select a genre from the following list: NEWS, TECHNOLOGY, HEALTH, SPORTS, ENTERTAINMENT, BUSINESS, SCIENCE, EDUCATION, LIFESTYLE, TRAVEL, FOOD, POLITICS, OPINION, HISTORY, ART\n"));
}

#[test]
fn oversized_article_is_refused() {
    let body = "z".repeat(9_000);
    let t = AbstractTemplate::new(&body, SupportedModel::Llama3).include_examples();
    assert!(t.as_prompt_string().is_err());
    let t = AbstractTemplate::new(&body, SupportedModel::Llama33).include_examples();
    assert!(t.as_prompt_string().is_ok());
}

#[test]
fn single_stage_request_sends_rendered_template() {
    let t = GenreTemplate::new("Body", SupportedModel::Llama3);
    let req = single_stage_request(&t, "llama3".to_string()).ok().unwrap();
    assert_eq!(req.prompt, t.as_prompt_string().ok().unwrap());
    assert_eq!(req.model, "llama3");
    assert!(req.system.is_none());
    assert!(!req.json_format);
    let big = "q".repeat(8_000);
    let t = GenreTemplate::new(&big, SupportedModel::Llama3);
    match single_stage_request(&t, "llama3".to_string()) {
        Err(BrainiacError::PromptTooLarge(n)) => assert!(n > 0),
        _ => panic!("expected the prompt to be refused"),
    }
}

#[test]
fn single_stage_answers_are_read() {
    assert_eq!(single_stage_text(r#"{"response":"T"}"#, "p".to_string()).ok().unwrap(), "T");
    assert_eq!(
        single_stage_list(r#"{"response":["a","b"]}"#, "p".to_string()).ok().unwrap(),
        vec!["a", "b"]
    );
    assert_eq!(
        single_stage_genre(r#"{"response":"travel"}"#, "p".to_string()).ok().unwrap(),
        ArticleGenre::Travel
    );
    assert_eq!(
        single_stage_genre(r#"{"response":"sciencefiction"}"#, "p".to_string()).ok().unwrap(),
        ArticleGenre::Opinion
    );
    match single_stage_text("nope", "the prompt".to_string()) {
        Err(BrainiacError::OllamaDetailedError(m, Some(p))) => {
            assert_eq!(m, "unreadable response: nope");
            assert_eq!(p, "the prompt");
        }
        _ => panic!("expected an unreadable answer"),
    }
    assert!(single_stage_list(r#"{"response":"x"}"#, "p".to_string()).is_err());
}
