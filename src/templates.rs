use vstd::prelude::*;
use crate::error::BrainiacError;
use crate::generator::CompletionRequest;
use crate::constants::{
    keyword_example_texts, keyword_examples, select_examples, selected,
    summarization_examples, summary_example_texts, title_example_texts, title_examples,
};
use crate::generator::{genre_options, genre_options_text};
use crate::prompt::{
    LINE_SEPARATOR, Prompt, PromptTooLargeError, SupportedModel, model_budget, render_of,
    with_example,
};
use crate::model::{ArticleGenre, resolve_genre, resolved_genre};
use crate::response::{
    JSONResponse, json_list_object, json_text_object, list_response_json, parse_list_response,
    parse_text_response, sole_response, text_response_json, texts_view,
};
use crate::text::{comma_fields, split_commas};

verus! {

/// The segments after each example in turn is pushed.
pub open spec fn with_examples(segments: Seq<Seq<char>>, examples: Seq<Seq<char>>) -> Seq<
    Seq<char>,
>
    decreases examples.len(),
{
    if examples.len() == 0 {
        segments
    } else {
        with_example(with_examples(segments, examples.drop_last()), examples.last())
    }
}

/// The segments a line push adds.
pub open spec fn line(s: Seq<char>) -> Seq<Seq<char>> {
    seq![s, LINE_SEPARATOR@]
}

/// The line that introduces the examples.
pub const EXAMPLES_INTRO: &'static str = "Examples of good responses are:";

/// How many examples a single-stage prompt shows.
pub const EXAMPLE_COUNT: usize = 3;

/// The instruction of the abstract prompt.
pub const ABSTRACT_INSTRUCTION: &'static str = "Analyze the text above and generate an abstract that captures the main points of the content. The abstract should be less than 5 sentences in length.";

/// The instruction of the title prompt.
pub const TITLE_INSTRUCTION: &'static str = "Analyze the summary above and generate an interesting title that capture the main purpose of the article.The title should be short and less than a sentence in length.";

/// The instruction of the keyword prompt.
pub const KEYWORD_INSTRUCTION: &'static str = "You are an expert in SEO and keyword research. Analyze the article above and provide a list of 6 keywords that capture the main points and supporting evidence.";

/// The instruction of the genre prompt.
pub const GENRE_INSTRUCTION: &'static str = "You are a literary critic. Which genre best applies to the article above?";

/// The line that lists the genres to choose from.
pub open spec fn genre_choice_line() -> Seq<char> {
    "Select a genre from the following list: "@ + genre_options(15)
}

/// Text examples as structured responses.
pub open spec fn text_examples_json(texts: Seq<Seq<char>>) -> Seq<Seq<char>> {
    texts.map_values(|t: Seq<char>| text_response_json(t))
}

/// Comma-separated examples as structured list responses.
pub open spec fn list_examples_json(texts: Seq<Seq<char>>) -> Seq<Seq<char>> {
    texts.map_values(|t: Seq<char>| list_response_json(comma_fields(t)))
}

/// A prompt that asks for an answer in one stage, already as a structured
/// response; rendering fails when it is over its model's budget.
pub trait PromptTemplate {
    spec fn template_segments(&self) -> Seq<Seq<char>>;

    spec fn template_budget(&self) -> nat;

    fn as_prompt_string(&self) -> (r: Result<String, PromptTooLargeError>)
        ensures
            match r {
                Ok(s) => render_of(self.template_segments(), self.template_budget()) == Ok::<
                    Seq<char>,
                    nat,
                >(s@),
                Err(e) => render_of(self.template_segments(), self.template_budget()) == Err::<
                    Seq<char>,
                    nat,
                >(e.overflow as nat),
            },
    ;
}

/// The request of a single-stage run: the rendered template, sent as is,
/// with no system message and no format constraint; a template over its budget is
/// refused before any request is made.
pub fn single_stage_request<T: PromptTemplate>(template: &T, model: String) -> (r: Result<
    CompletionRequest,
    BrainiacError,
>)
    ensures
        match render_of(template.template_segments(), template.template_budget()) {
            Ok(text) => r matches Ok(req) && req.prompt@ == text && req.model@ == model@
                && req.system is None && !req.json_format,
            Err(n) => r matches Err(BrainiacError::PromptTooLarge(o)) && o as nat == n,
        },
{
    match template.as_prompt_string() {
        Ok(prompt) => Ok(CompletionRequest { model, prompt, system: None, json_format: false }),
        Err(e) => Err(BrainiacError::PromptTooLarge(e.overflow)),
    }
}

/// The error of a single-stage answer that does not decode: it carries the
/// answer and the prompt that was sent.
pub open spec fn unreadable_answer(e: BrainiacError, raw: Seq<char>, prompt: Seq<char>) -> bool {
    e matches BrainiacError::OllamaDetailedError(m, Some(p)) && m@ == "unreadable response: "@
        + raw && p@ == prompt
}

fn unreadable(raw: &str, prompt: String) -> (e: BrainiacError)
    ensures
        unreadable_answer(e, raw@, prompt@),
{
    BrainiacError::OllamaDetailedError(
        "unreadable response: ".to_string().concat(raw),
        Some(prompt),
    )
}

/// The text of a single-stage answer, which must be a structured response
/// carrying a text.
pub fn single_stage_text(raw: &str, prompt: String) -> (r: Result<String, BrainiacError>)
    ensures
        match r {
            Ok(s) => json_text_object(raw@) matches Some(m) && sole_response(m) == Some(s@),
            Err(e) => !(json_text_object(raw@) matches Some(m) && sole_response(m) is Some)
                && unreadable_answer(e, raw@, prompt@),
        },
{
    match parse_text_response(raw) {
        Some(s) => Ok(s),
        None => Err(unreadable(raw, prompt)),
    }
}

/// The texts of a single-stage answer, which must be a structured response
/// carrying a list of texts.
pub fn single_stage_list(raw: &str, prompt: String) -> (r: Result<Vec<String>, BrainiacError>)
    ensures
        match r {
            Ok(v) => json_list_object(raw@) matches Some(m) && sole_response(m) == Some(
                texts_view(v@),
            ),
            Err(e) => !(json_list_object(raw@) matches Some(m) && sole_response(m) is Some)
                && unreadable_answer(e, raw@, prompt@),
        },
{
    match parse_list_response(raw) {
        Some(v) => Ok(v),
        None => Err(unreadable(raw, prompt)),
    }
}

/// The genre of a single-stage answer: its text is resolved, an unknown
/// genre giving the default.
pub fn single_stage_genre(raw: &str, prompt: String) -> (r: Result<ArticleGenre, BrainiacError>)
    ensures
        match r {
            Ok(g) => json_text_object(raw@) matches Some(m) && sole_response(m) is Some && g
                == resolved_genre(sole_response(m).unwrap()),
            Err(e) => !(json_text_object(raw@) matches Some(m) && sole_response(m) is Some)
                && unreadable_answer(e, raw@, prompt@),
        },
{
    match parse_text_response(raw) {
        Some(s) => Ok(resolve_genre(s.as_str())),
        None => Err(unreadable(raw, prompt)),
    }
}

/// Pushes each selected text as a structured response example.
fn push_text_examples(prompt: &mut Prompt, texts: Vec<String>)
    ensures
        final(prompt).segments() == with_examples(
            old(prompt).segments(),
            text_examples_json(texts_view(texts@)),
        ),
        final(prompt).budget() == old(prompt).budget(),
{
    let ghost base = prompt.segments();
    let ghost exs = text_examples_json(texts_view(texts@));
    let mut i: usize = 0;
    while i < texts.len()
        invariant
            i <= texts.len(),
            exs == text_examples_json(texts_view(texts@)),
            prompt.segments() == with_examples(base, exs.take(i as int)),
            prompt.budget() == old(prompt).budget(),
        decreases texts.len() - i,
    {
        let json = JSONResponse::from_text(texts[i].as_str()).to_json();
        assert(exs.take(i + 1).drop_last() =~= exs.take(i as int));
        prompt.push_example(json);
        i = i + 1;
    }
    assert(exs.take(i as int) =~= exs);
}

/// Pushes each selected comma-separated text as a structured list example.
fn push_list_examples(prompt: &mut Prompt, texts: Vec<String>)
    ensures
        final(prompt).segments() == with_examples(
            old(prompt).segments(),
            list_examples_json(texts_view(texts@)),
        ),
        final(prompt).budget() == old(prompt).budget(),
{
    let ghost base = prompt.segments();
    let ghost exs = list_examples_json(texts_view(texts@));
    let mut i: usize = 0;
    while i < texts.len()
        invariant
            i <= texts.len(),
            exs == list_examples_json(texts_view(texts@)),
            prompt.segments() == with_examples(base, exs.take(i as int)),
            prompt.budget() == old(prompt).budget(),
        decreases texts.len() - i,
    {
        let pieces = split_commas(texts[i].as_str());
        let json = JSONResponse::from(pieces).to_json();
        assert(exs.take(i + 1).drop_last() =~= exs.take(i as int));
        prompt.push_example(json);
        i = i + 1;
    }
    assert(exs.take(i as int) =~= exs);
}

/// A prompt for an abstract of an article.
pub struct AbstractTemplate {
    prompt: Prompt,
}

impl AbstractTemplate {
    /// The article followed by the instruction, under `model`'s budget.
    pub fn new(content: &str, model: SupportedModel) -> (r: AbstractTemplate)
        ensures
            r.template_segments() == line(content@) + line(ABSTRACT_INSTRUCTION@),
            r.template_budget() == model_budget(model),
    {
        let mut prompt = Prompt::new(model);
        prompt.push(content);
        prompt.push(ABSTRACT_INSTRUCTION);
        assert(prompt.segments() =~= line(content@) + line(ABSTRACT_INSTRUCTION@));
        AbstractTemplate { prompt }
    }

    /// Adds the three example abstracts as structured responses.
    pub fn include_examples(self) -> (r: AbstractTemplate)
        ensures
            r.template_segments() == with_examples(
                self.template_segments() + line(EXAMPLES_INTRO@),
                text_examples_json(selected(summary_example_texts(), 3)),
            ),
            r.template_budget() == self.template_budget(),
    {
        let mut prompt = self.prompt;
        prompt.push(EXAMPLES_INTRO);
        let selections = select_examples(summarization_examples(), EXAMPLE_COUNT);
        push_text_examples(&mut prompt, selections);
        AbstractTemplate { prompt }
    }
}

impl PromptTemplate for AbstractTemplate {
    closed spec fn template_segments(&self) -> Seq<Seq<char>> {
        self.prompt.segments()
    }

    closed spec fn template_budget(&self) -> nat {
        self.prompt.budget()
    }

    fn as_prompt_string(&self) -> (r: Result<String, PromptTooLargeError>) {
        self.prompt.render()
    }
}

/// A prompt for a title of an article.
pub struct TitleTemplate {
    prompt: Prompt,
}

impl TitleTemplate {
    /// The article followed by the instruction, under `model`'s budget.
    pub fn new(content: &str, model: SupportedModel) -> (r: TitleTemplate)
        ensures
            r.template_segments() == line(content@) + line(TITLE_INSTRUCTION@),
            r.template_budget() == model_budget(model),
    {
        let mut prompt = Prompt::new(model);
        prompt.push(content);
        prompt.push(TITLE_INSTRUCTION);
        assert(prompt.segments() =~= line(content@) + line(TITLE_INSTRUCTION@));
        TitleTemplate { prompt }
    }

    /// Adds the first three example titles as structured responses.
    pub fn include_examples(self) -> (r: TitleTemplate)
        ensures
            r.template_segments() == with_examples(
                self.template_segments() + line(EXAMPLES_INTRO@),
                text_examples_json(selected(title_example_texts(), 3)),
            ),
            r.template_budget() == self.template_budget(),
    {
        let mut prompt = self.prompt;
        prompt.push(EXAMPLES_INTRO);
        let selections = select_examples(title_examples(), EXAMPLE_COUNT);
        push_text_examples(&mut prompt, selections);
        TitleTemplate { prompt }
    }
}

impl PromptTemplate for TitleTemplate {
    closed spec fn template_segments(&self) -> Seq<Seq<char>> {
        self.prompt.segments()
    }

    closed spec fn template_budget(&self) -> nat {
        self.prompt.budget()
    }

    fn as_prompt_string(&self) -> (r: Result<String, PromptTooLargeError>) {
        self.prompt.render()
    }
}

/// A prompt for keywords of an article.
pub struct KeywordTemplate {
    prompt: Prompt,
}

impl KeywordTemplate {
    /// The article followed by the instruction, under `model`'s budget.
    pub fn new(content: &str, model: SupportedModel) -> (r: KeywordTemplate)
        ensures
            r.template_segments() == line(content@) + line(KEYWORD_INSTRUCTION@),
            r.template_budget() == model_budget(model),
    {
        let mut prompt = Prompt::new(model);
        prompt.push(content);
        prompt.push(KEYWORD_INSTRUCTION);
        assert(prompt.segments() =~= line(content@) + line(KEYWORD_INSTRUCTION@));
        KeywordTemplate { prompt }
    }

    /// Adds the first three example keyword lists, split at their commas, as
    /// structured list responses.
    pub fn include_examples(self) -> (r: KeywordTemplate)
        ensures
            r.template_segments() == with_examples(
                self.template_segments() + line(EXAMPLES_INTRO@),
                list_examples_json(selected(keyword_example_texts(), 3)),
            ),
            r.template_budget() == self.template_budget(),
    {
        let mut prompt = self.prompt;
        prompt.push(EXAMPLES_INTRO);
        let selections = select_examples(keyword_examples(), EXAMPLE_COUNT);
        push_list_examples(&mut prompt, selections);
        KeywordTemplate { prompt }
    }
}

impl PromptTemplate for KeywordTemplate {
    closed spec fn template_segments(&self) -> Seq<Seq<char>> {
        self.prompt.segments()
    }

    closed spec fn template_budget(&self) -> nat {
        self.prompt.budget()
    }

    fn as_prompt_string(&self) -> (r: Result<String, PromptTooLargeError>) {
        self.prompt.render()
    }
}

/// A prompt for the genre of an article, listing the genres to choose from.
pub struct GenreTemplate {
    prompt: Prompt,
}

impl GenreTemplate {
    /// The article, the instruction and the list of genres, under `model`'s
    /// budget.
    pub fn new(content: &str, model: SupportedModel) -> (r: GenreTemplate)
        ensures
            r.template_segments() == line(content@) + line(GENRE_INSTRUCTION@) + line(
                genre_choice_line(),
            ),
            r.template_budget() == model_budget(model),
    {
        let mut prompt = Prompt::new(model);
        prompt.push(content);
        prompt.push(GENRE_INSTRUCTION);
        let options = genre_options_text();
        let choice = "Select a genre from the following list: ".to_string().concat(
            options.as_str(),
        );
        prompt.push(choice.as_str());
        assert(prompt.segments() =~= line(content@) + line(GENRE_INSTRUCTION@) + line(
            genre_choice_line(),
        ));
        GenreTemplate { prompt }
    }
}

impl PromptTemplate for GenreTemplate {
    closed spec fn template_segments(&self) -> Seq<Seq<char>> {
        self.prompt.segments()
    }

    closed spec fn template_budget(&self) -> nat {
        self.prompt.budget()
    }

    fn as_prompt_string(&self) -> (r: Result<String, PromptTooLargeError>) {
        self.prompt.render()
    }
}

} // verus!
