use vstd::prelude::*;
use crate::model::{ArticleGenre, ResponseOutputType, GENRE_COUNT, genre_at, genre_name};

verus! {

/// One request to the completion service.
pub struct CompletionRequest {
    pub model: String,
    pub prompt: String,
    pub system: Option<String>,
    /// Whether the answer is constrained to JSON.
    pub json_format: bool,
}

/// The persona given to the model when it first answers.
pub const EDITOR_PERSONA: &'static str = "You are an editor at major publishing company. The following article has just arrived at your desk.";

/// The question asked for a field.
pub open spec fn guideline(k: ResponseOutputType) -> Seq<char> {
    match k {
        ResponseOutputType::Title => "What should be the title of this article?"@,
        ResponseOutputType::Description => "Provide a brief summary of this article."@,
        ResponseOutputType::Genre => "What genre does this article belong to?"@,
        ResponseOutputType::Keywords => "What are some keywords that describe this article?"@,
    }
}

/// The first `n` genre names, joined by `, `.
pub open spec fn genre_options(n: int) -> Seq<char>
    decreases n,
{
    if n <= 0 {
        Seq::empty()
    } else if n == 1 {
        genre_name(genre_at(0))
    } else {
        genre_options(n - 1) + ", "@ + genre_name(genre_at(n - 1))
    }
}

/// The formatting constraint stated for a field.
pub open spec fn limitation(k: ResponseOutputType) -> Seq<char> {
    match k {
        ResponseOutputType::Title => "The title should be at most 10 words."@,
        ResponseOutputType::Description => "The summary should be less than 5 sentences in length and be written in a single paragraph."@,
        ResponseOutputType::Genre => "The genre should be a single word and be one of these available options: "@
            + genre_options(15),
        ResponseOutputType::Keywords => "The keywords should be a comma separated list."@,
    }
}

/// The user message that asks for a field.
pub open spec fn generation_prompt(k: ResponseOutputType) -> Seq<char> {
    guideline(k) + "\n"@ + limitation(k)
}

/// The system message that hands the article to the editor persona.
pub open spec fn generation_system(content: Seq<char>) -> Seq<char> {
    EDITOR_PERSONA@ + "\n###Article:\n"@ + content
}

/// The question asked for a field.
pub fn guideline_text(k: ResponseOutputType) -> (r: &'static str)
    ensures
        r@ == guideline(k),
{
    match k {
        ResponseOutputType::Title => "What should be the title of this article?",
        ResponseOutputType::Description => "Provide a brief summary of this article.",
        ResponseOutputType::Genre => "What genre does this article belong to?",
        ResponseOutputType::Keywords => "What are some keywords that describe this article?",
    }
}

/// All genre names, joined by `, `.
pub fn genre_options_text() -> (r: String)
    ensures
        r@ == genre_options(15),
{
    let mut text = String::new();
    let mut i: usize = 0;
    while i < GENRE_COUNT
        invariant
            i <= GENRE_COUNT,
            text@ == genre_options(i as int),
        decreases GENRE_COUNT - i,
    {
        let name = ArticleGenre::from_index(i).as_str();
        if i == 0 {
            text = name.to_string();
        } else {
            text = text.concat(", ").concat(name);
        }
        i = i + 1;
    }
    text
}

/// The formatting constraint stated for a field.
pub fn limitation_text(k: ResponseOutputType) -> (r: String)
    ensures
        r@ == limitation(k),
{
    match k {
        ResponseOutputType::Title => "The title should be at most 10 words.".to_string(),
        ResponseOutputType::Description => "The summary should be less than 5 sentences in length and be written in a single paragraph.".to_string(),
        ResponseOutputType::Genre => {
            let options = genre_options_text();
            "The genre should be a single word and be one of these available options: ".to_string().concat(
                options.as_str(),
            )
        },
        ResponseOutputType::Keywords => "The keywords should be a comma separated list.".to_string(),
    }
}

/// The first stage: asks the model, as an editor holding the article, for a
/// free-text answer about one field.
pub struct OutputGenerator {
    content: Option<String>,
    model: String,
}

impl OutputGenerator {
    /// The article set so far, if any.
    pub closed spec fn content_view(&self) -> Option<Seq<char>> {
        match self.content {
            Some(c) => Some(c@),
            None => None,
        }
    }

    /// The model asked.
    pub closed spec fn model_view(&self) -> Seq<char> {
        self.model@
    }

    /// A generator for `model` with no article set.
    pub fn new(model: String) -> (r: OutputGenerator)
        ensures
            r.content_view() is None,
            r.model_view() == model@,
    {
        OutputGenerator { content: None, model }
    }

    /// Sets the article that the prompts refer to.
    pub fn set_content(&mut self, content: String)
        ensures
            final(self).content_view() == Some(content@),
            final(self).model_view() == old(self).model_view(),
    {
        self.content = Some(content);
    }

    /// The request that asks for field `k`; `None` while no article is set.
    /// It asks for free text, not JSON.
    pub fn output_request(&self, k: ResponseOutputType) -> (r: Option<CompletionRequest>)
        ensures
            match r {
                Some(req) => {
                    &&& self.content_view() is Some
                    &&& req.model@ == self.model_view()
                    &&& req.prompt@ == generation_prompt(k)
                    &&& req.system is Some
                    &&& req.system.unwrap()@ == generation_system(self.content_view().unwrap())
                    &&& !req.json_format
                },
                None => self.content_view() is None,
            },
    {
        match &self.content {
            None => None,
            Some(content) => {
                let limits = limitation_text(k);
                let prompt = guideline_text(k).to_string().concat("\n").concat(limits.as_str());
                let system = EDITOR_PERSONA.to_string().concat("\n###Article:\n").concat(
                    content.as_str(),
                );
                Some(
                    CompletionRequest {
                        model: self.model.clone(),
                        prompt,
                        system: Some(system),
                        json_format: false,
                    },
                )
            },
        }
    }
}

/// `needle` occurs in `hay`.
pub open spec fn occurs_in(needle: Seq<char>, hay: Seq<char>) -> bool {
    exists|k: int|
        0 <= k && k + needle.len() <= hay.len() && #[trigger] hay.subrange(k, k + needle.len())
            == needle
}

proof fn lemma_occurs_in_prefix(needle: Seq<char>, a: Seq<char>, b: Seq<char>)
    requires
        occurs_in(needle, a),
    ensures
        occurs_in(needle, a + b),
{
    let k = choose|k: int|
        0 <= k && k + needle.len() <= a.len() && #[trigger] a.subrange(k, k + needle.len())
            == needle;
    assert((a + b).subrange(k, k + needle.len()) =~= a.subrange(k, k + needle.len()));
}

proof fn lemma_occurs_at_end(a: Seq<char>, needle: Seq<char>)
    ensures
        occurs_in(needle, a + needle),
{
    assert((a + needle).subrange(a.len() as int, (a.len() + needle.len()) as int) =~= needle);
}

proof fn lemma_option_listed(n: int, i: int)
    requires
        0 <= i < n,
    ensures
        occurs_in(genre_name(genre_at(i)), genre_options(n)),
    decreases n,
{
    if n == 1 {
        lemma_occurs_at_end(Seq::empty(), genre_name(genre_at(0)));
        assert(Seq::<char>::empty() + genre_name(genre_at(0)) =~= genre_name(genre_at(0)));
    } else if i < n - 1 {
        lemma_option_listed(n - 1, i);
        lemma_occurs_in_prefix(
            genre_name(genre_at(i)),
            genre_options(n - 1),
            ", "@ + genre_name(genre_at(n - 1)),
        );
        assert(genre_options(n - 1) + (", "@ + genre_name(genre_at(n - 1))) =~= genre_options(n));
    } else {
        lemma_occurs_at_end(genre_options(n - 1) + ", "@, genre_name(genre_at(i)));
    }
}

/// Every genre's name appears in the constraint stated for the genre field.
pub proof fn lemma_genre_limitation_lists_every_genre(g: ArticleGenre)
    ensures
        occurs_in(genre_name(g), limitation(ResponseOutputType::Genre)),
{
    let i: int = match g {
        ArticleGenre::News => 0,
        ArticleGenre::Technology => 1,
        ArticleGenre::Health => 2,
        ArticleGenre::Sports => 3,
        ArticleGenre::Entertainment => 4,
        ArticleGenre::Business => 5,
        ArticleGenre::Science => 6,
        ArticleGenre::Education => 7,
        ArticleGenre::Lifestyle => 8,
        ArticleGenre::Travel => 9,
        ArticleGenre::Food => 10,
        ArticleGenre::Politics => 11,
        ArticleGenre::Opinion => 12,
        ArticleGenre::History => 13,
        ArticleGenre::Art => 14,
    };
    assert(genre_at(i) == g);
    lemma_option_listed(15, i);
    let prefix = "The genre should be a single word and be one of these available options: "@;
    let k = choose|k: int|
        0 <= k && k + genre_name(g).len() <= genre_options(15).len() && #[trigger] genre_options(
            15,
        ).subrange(k, k + genre_name(g).len()) == genre_name(g);
    assert((prefix + genre_options(15)).subrange(
        prefix.len() + k,
        prefix.len() + k + genre_name(g).len(),
    ) =~= genre_options(15).subrange(k, k + genre_name(g).len()));
}

/// No two fields are given the same formatting constraint.
pub proof fn lemma_limitations_distinct(a: ResponseOutputType, b: ResponseOutputType)
    requires
        a != b,
    ensures
        limitation(a) != limitation(b),
{
    reveal_strlit("The title should be at most 10 words.");
    reveal_strlit("The summary should be less than 5 sentences in length and be written in a single paragraph.");
    reveal_strlit("The genre should be a single word and be one of these available options: ");
    reveal_strlit("The keywords should be a comma separated list.");
    let p = "The genre should be a single word and be one of these available options: "@;
    assert((p + genre_options(15))[4] == p[4]);
    assert(limitation(a)[4] != limitation(b)[4]);
}

} // verus!
