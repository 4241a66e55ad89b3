use vstd::prelude::*;
use crate::error::BrainiacError;
use crate::metadata::{AnalyticsData, CalendarDate, Metadata, build_metadata, slug_of};
use crate::model::{ArticleGenre, ResponseOutputType, resolve_genre, resolved_genre};
use crate::response::{
    json_list_object, json_text_object, parse_list_response, parse_text_response, sole_response,
    texts_view,
};
use crate::text::{sanitize_string, strip_controls};

verus! {

/// Where a run of the pipeline stands.
#[derive(Clone, Copy, Debug, PartialEq, Eq, Structural)]
pub enum Stage {
    /// Waiting for the first-stage answer for a field.
    Generating(ResponseOutputType),
    /// Waiting for the reformatted answer for a field.
    Formatting(ResponseOutputType),
    /// Every field is in; the metadata can be assembled.
    Done,
    /// The run stopped at a field.
    Failed(ResponseOutputType),
}

/// What the caller must do next.
pub enum Action {
    /// Ask the generator for a field.
    Generate(ResponseOutputType),
    /// Ask the formatter to restate this sanitised answer as a field.
    Format(ResponseOutputType, String),
    /// Assemble the metadata and write the output.
    Finish,
    /// Stop without output: the run failed at this field.
    Abort(ResponseOutputType),
}

/// The field after `k`, in the fixed order title, description, genre, keywords.
pub open spec fn next_kind(k: ResponseOutputType) -> Option<ResponseOutputType> {
    match k {
        ResponseOutputType::Title => Some(ResponseOutputType::Description),
        ResponseOutputType::Description => Some(ResponseOutputType::Genre),
        ResponseOutputType::Genre => Some(ResponseOutputType::Keywords),
        ResponseOutputType::Keywords => None,
    }
}

/// The stage after field `k` has been read.
pub open spec fn stage_after(k: ResponseOutputType) -> Stage {
    match next_kind(k) {
        Some(n) => Stage::Generating(n),
        None => Stage::Done,
    }
}

/// The formatted answer `raw` decodes as the structured response field `k` needs.
pub open spec fn decodes_as(k: ResponseOutputType, raw: Seq<char>) -> bool {
    if k == ResponseOutputType::Keywords {
        json_list_object(raw) matches Some(m) && sole_response(m) is Some
    } else {
        json_text_object(raw) matches Some(m) && sole_response(m) is Some
    }
}

/// The text payload of a formatted answer that decodes.
pub open spec fn text_payload(raw: Seq<char>) -> Seq<char> {
    sole_response(json_text_object(raw).unwrap()).unwrap()
}

/// The list payload of a formatted answer that decodes.
pub open spec fn list_payload(raw: Seq<char>) -> Seq<Seq<char>> {
    sole_response(json_list_object(raw).unwrap()).unwrap()
}

/// The stage after the formatted answer `raw` for field `k` came back.
pub open spec fn stage_after_format(k: ResponseOutputType, raw: Seq<char>) -> Stage {
    if decodes_as(k, raw) {
        stage_after(k)
    } else {
        Stage::Failed(k)
    }
}

/// The kind of action a stage asks for.
pub open spec fn action_matches(s: Stage, a: Action) -> bool {
    match s {
        Stage::Generating(k) => a == Action::Generate(k),
        Stage::Formatting(k) => a matches Action::Format(j, _) && j == k,
        Stage::Done => a is Finish,
        Stage::Failed(k) => a == Action::Abort(k),
    }
}

/// The state of one run: the stage and the fields read so far.
pub struct Pipeline {
    stage: Stage,
    pending: String,
    title: String,
    description: String,
    genre: ArticleGenre,
    keywords: Vec<String>,
}

impl Pipeline {
    pub closed spec fn stage_view(&self) -> Stage {
        self.stage
    }

    /// The sanitised first-stage answer waiting to be reformatted.
    pub closed spec fn pending_view(&self) -> Seq<char> {
        self.pending@
    }

    pub closed spec fn title_view(&self) -> Seq<char> {
        self.title@
    }

    pub closed spec fn description_view(&self) -> Seq<char> {
        self.description@
    }

    pub closed spec fn genre_view(&self) -> ArticleGenre {
        self.genre
    }

    pub closed spec fn keywords_view(&self) -> Seq<Seq<char>> {
        texts_view(self.keywords@)
    }

    /// A run that has not started: the title is asked for first.
    pub fn new() -> (r: Pipeline)
        ensures
            r.stage_view() == Stage::Generating(ResponseOutputType::Title),
    {
        Pipeline {
            stage: Stage::Generating(ResponseOutputType::Title),
            pending: String::new(),
            title: String::new(),
            description: String::new(),
            genre: ArticleGenre::Opinion,
            keywords: Vec::new(),
        }
    }

    /// Where the run stands.
    pub fn stage(&self) -> (r: Stage)
        ensures
            r == self.stage_view(),
    {
        self.stage
    }

    /// What the caller must do next.
    pub fn next_action(&self) -> (r: Action)
        ensures
            action_matches(self.stage_view(), r),
            r matches Action::Format(_, t) ==> t@ == self.pending_view(),
    {
        match self.stage {
            Stage::Generating(k) => Action::Generate(k),
            Stage::Formatting(k) => Action::Format(k, self.pending.clone()),
            Stage::Done => Action::Finish,
            Stage::Failed(k) => Action::Abort(k),
        }
    }

    /// Takes the first-stage answer for the current field; its sanitised
    /// text is what the formatter is asked to restate.
    pub fn on_generated(&mut self, raw: String)
        requires
            old(self).stage_view() is Generating,
        ensures
            final(self).stage_view() == Stage::Formatting(old(self).stage_view()->Generating_0),
            final(self).pending_view() == strip_controls(raw@),
            final(self).title_view() == old(self).title_view(),
            final(self).description_view() == old(self).description_view(),
            final(self).genre_view() == old(self).genre_view(),
            final(self).keywords_view() == old(self).keywords_view(),
    {
        if let Stage::Generating(k) = self.stage {
            self.pending = sanitize_string(raw);
            self.stage = Stage::Formatting(k);
        }
    }

    /// Takes the formatted answer for the current field. Where it decodes the
    /// field is stored and the run moves on; where it does not the run stops
    /// here with a `ParseError`. A genre name that matches no genre is read
    /// as the default genre, not as an error; a genre name is upper-cased first.
    pub fn on_formatted(&mut self, raw: &str) -> (r: Result<(), BrainiacError>)
        requires
            old(self).stage_view() is Formatting,
        ensures
            ({
                let k = old(self).stage_view()->Formatting_0;
                &&& final(self).stage_view() == stage_after_format(k, raw@)
                &&& (r is Ok <==> decodes_as(k, raw@))
                &&& (r matches Err(e) ==> e matches BrainiacError::ParseError(t, j) && t@ == raw@
                    && j == k)
                &&& final(self).title_view() == (if k == ResponseOutputType::Title && r is Ok {
                    text_payload(raw@)
                } else {
                    old(self).title_view()
                })
                &&& final(self).description_view() == (if k == ResponseOutputType::Description
                    && r is Ok {
                    text_payload(raw@)
                } else {
                    old(self).description_view()
                })
                &&& final(self).genre_view() == (if k == ResponseOutputType::Genre && r is Ok {
                    resolved_genre(text_payload(raw@))
                } else {
                    old(self).genre_view()
                })
                &&& final(self).keywords_view() == (if k == ResponseOutputType::Keywords && r is Ok {
                    list_payload(raw@)
                } else {
                    old(self).keywords_view()
                })
            }),
    {
        let k = match self.stage {
            Stage::Formatting(k) => k,
            _ => ResponseOutputType::Title,
        };
        let read = match k {
            ResponseOutputType::Keywords => match parse_list_response(raw) {
                Some(v) => {
                    self.keywords = v;
                    true
                },
                None => false,
            },
            _ => match parse_text_response(raw) {
                Some(s) => {
                    match k {
                        ResponseOutputType::Title => { self.title = s; },
                        ResponseOutputType::Description => { self.description = s; },
                        _ => { self.genre = resolve_genre(s.as_str()); },
                    }
                    true
                },
                None => false,
            },
        };
        if read {
            self.stage = match k {
                ResponseOutputType::Title => Stage::Generating(ResponseOutputType::Description),
                ResponseOutputType::Description => Stage::Generating(ResponseOutputType::Genre),
                ResponseOutputType::Genre => Stage::Generating(ResponseOutputType::Keywords),
                ResponseOutputType::Keywords => Stage::Done,
            };
            Ok(())
        } else {
            self.stage = Stage::Failed(k);
            Err(BrainiacError::ParseError(raw.to_string(), k))
        }
    }

    /// The completion service failed: the run stops at the current field.
    pub fn on_service_error(&mut self)
        requires
            old(self).stage_view() is Generating || old(self).stage_view() is Formatting,
        ensures
            final(self).stage_view() == Stage::Failed(
                match old(self).stage_view() {
                    Stage::Generating(k) => k,
                    Stage::Formatting(k) => k,
                    _ => ResponseOutputType::Title,
                },
            ),
    {
        self.stage = match self.stage {
            Stage::Generating(k) => Stage::Failed(k),
            Stage::Formatting(k) => Stage::Failed(k),
            _ => Stage::Failed(ResponseOutputType::Title),
        };
    }

    /// The metadata of a finished run, with the statistics computed apart.
    pub fn finish(self, author: String, analytics: AnalyticsData, created_at: CalendarDate) -> (r:
        Metadata)
        requires
            self.stage_view() == Stage::Done,
            created_at.wf(),
        ensures
            r.title@ == self.title_view(),
            r.description@ == self.description_view(),
            r.author@ == author@,
            r.slug@ == slug_of(self.title_view()),
            r.interest.genre == self.genre_view(),
            texts_view(r.interest.keywords@) == self.keywords_view(),
            r.interest.related_articles@.len() == 0,
            r.analytics.created_at == created_at,
            r.analytics.length_in_words == analytics.length_in_words,
            r.analytics.reading_time_in_minutes == analytics.reading_time_in_minutes,
    {
        build_metadata(
            self.title,
            self.description,
            author,
            self.genre,
            self.keywords,
            analytics,
            created_at,
        )
    }
}

/// A formatted title that does not decode stops the run at the title: the
/// next action is to abort, and no later field is asked for.
pub proof fn lemma_unreadable_title_aborts(raw: Seq<char>, a: Action)
    requires
        !decodes_as(ResponseOutputType::Title, raw),
        action_matches(stage_after_format(ResponseOutputType::Title, raw), a),
    ensures
        stage_after_format(ResponseOutputType::Title, raw) == Stage::Failed(
            ResponseOutputType::Title,
        ),
        a == Action::Abort(ResponseOutputType::Title),
        !(a is Finish),
{
}

/// Reading a field leads only to the next field in the fixed order, and
/// reading the keywords ends the run.
pub proof fn lemma_fields_in_order(k: ResponseOutputType, raw: Seq<char>)
    requires
        decodes_as(k, raw),
    ensures
        stage_after_format(k, raw) == stage_after(k),
        k == ResponseOutputType::Title ==> stage_after_format(k, raw) == Stage::Generating(
            ResponseOutputType::Description,
        ),
        k == ResponseOutputType::Description ==> stage_after_format(k, raw) == Stage::Generating(
            ResponseOutputType::Genre,
        ),
        k == ResponseOutputType::Genre ==> stage_after_format(k, raw) == Stage::Generating(
            ResponseOutputType::Keywords,
        ),
        k == ResponseOutputType::Keywords ==> stage_after_format(k, raw) == Stage::Done,
{
}

} // verus!
