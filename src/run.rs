use vstd::prelude::*;

verus! {

/// The model that answers first when none is named.
pub const DEFAULT_GEN_MODEL: &'static str = "deepseek-r1:8b";

/// The model that reformats answers when none is named.
pub const DEFAULT_FORMAT_MODEL: &'static str = "deepseek-r1:1.5b";

/// The parameters of one run that appends metadata to an article.
pub struct BrainiacAppend {
    pub source_path: String,
    pub output_dir_path: Option<String>,
    pub gen_model: Option<String>,
    pub format_model: Option<String>,
    pub author: String,
}

/// The named model, or the default.
pub open spec fn model_or(named: Option<String>, default: Seq<char>) -> Seq<char> {
    match named {
        Some(m) => m@,
        None => default,
    }
}

impl BrainiacAppend {
    /// The model that answers first.
    pub fn generation_model(&self) -> (r: String)
        ensures
            r@ == model_or(self.gen_model, DEFAULT_GEN_MODEL@),
    {
        match &self.gen_model {
            Some(m) => m.clone(),
            None => DEFAULT_GEN_MODEL.to_string(),
        }
    }

    /// The model that reformats answers.
    pub fn formatting_model(&self) -> (r: String)
        ensures
            r@ == model_or(self.format_model, DEFAULT_FORMAT_MODEL@),
    {
        match &self.format_model {
            Some(m) => m.clone(),
            None => DEFAULT_FORMAT_MODEL.to_string(),
        }
    }

    /// Whether the parameters can start a run: an author must be named.
    pub fn is_valid(&self) -> (r: bool)
        ensures
            r == (self.author@.len() > 0),
    {
        self.author.as_str().unicode_len() > 0
    }
}

/// The parameters of reading metadata back from a file.
pub struct BrainiacParse {
    pub source_path: String,
}

} // verus!
