use vstd::prelude::*;
use crate::model::ResponseOutputType;

verus! {

/// The ways a run of the pipeline can fail.
pub enum BrainiacError {
    /// The completion service failed; carries its message.
    OllamaError(String),
    /// The completion service failed; carries its message and the prompt sent.
    OllamaDetailedError(String, Option<String>),
    /// Reading the source or writing the output failed; carries the message.
    IoError(String),
    /// The formatted answer did not decode; carries the raw text and the field.
    ParseError(String, ResponseOutputType),
    /// The prompt was longer than the model's budget; carries the overflow.
    PromptTooLarge(usize),
    /// The run was asked for with parameters it cannot start from.
    InvalidInput(String),
}

/// The name of a field, as messages spell it.
pub open spec fn kind_name(k: ResponseOutputType) -> Seq<char> {
    match k {
        ResponseOutputType::Title => "title"@,
        ResponseOutputType::Description => "description"@,
        ResponseOutputType::Genre => "genre"@,
        ResponseOutputType::Keywords => "keywords"@,
    }
}

/// The name of a field, as messages spell it.
pub fn kind_str(k: ResponseOutputType) -> (r: &'static str)
    ensures
        r@ == kind_name(k),
{
    match k {
        ResponseOutputType::Title => "title",
        ResponseOutputType::Description => "description",
        ResponseOutputType::Genre => "genre",
        ResponseOutputType::Keywords => "keywords",
    }
}

/// The message shown to the user for an error.
pub open spec fn error_message(e: BrainiacError) -> Seq<char> {
    match e {
        BrainiacError::OllamaError(m) => "OllamaError: "@ + m@,
        BrainiacError::OllamaDetailedError(m, None) => "OllamaError: "@ + m@,
        BrainiacError::OllamaDetailedError(m, Some(p)) => "OllamaError: "@ + m@ + "\nPrompt: "@
            + p@,
        BrainiacError::IoError(m) => "IoError: "@ + m@,
        BrainiacError::ParseError(raw, k) => "ParseError: the "@ + kind_name(k)
            + " response could not be read: "@ + raw@,
        BrainiacError::PromptTooLarge(_) => "PromptTooLargeError: the prompt exceeds the model's context budget"@,
        BrainiacError::InvalidInput(m) => "InvalidInput: "@ + m@,
    }
}

impl BrainiacError {
    /// The message shown to the user.
    pub fn message(&self) -> (r: String)
        ensures
            r@ == error_message(*self),
    {
        match self {
            BrainiacError::OllamaError(m) => "OllamaError: ".to_string().concat(m.as_str()),
            BrainiacError::OllamaDetailedError(m, p) => {
                let e = "OllamaError: ".to_string().concat(m.as_str());
                match p {
                    Some(p) => e.concat("\nPrompt: ").concat(p.as_str()),
                    None => e,
                }
            },
            BrainiacError::IoError(m) => "IoError: ".to_string().concat(m.as_str()),
            BrainiacError::ParseError(raw, k) => "ParseError: the ".to_string().concat(
                kind_str(*k),
            ).concat(" response could not be read: ").concat(raw.as_str()),
            BrainiacError::PromptTooLarge(_) => "PromptTooLargeError: the prompt exceeds the model's context budget".to_string(),
            BrainiacError::InvalidInput(m) => "InvalidInput: ".to_string().concat(m.as_str()),
        }
    }
}

} // verus!
