use vstd::prelude::*;
use vstd::string::*;
use vstd::utf8::encode_utf8;

verus! {

/// Separator pushed after every line.
pub const LINE_SEPARATOR: &'static str = "\n";

/// Delimiter placed around every example.
pub const EXAMPLE_SEPARATOR: &'static str = "\n~~~\n";

/// The models whose context budget is known.
#[derive(Clone, Copy, Debug, PartialEq, Eq, Structural)]
pub enum SupportedModel {
    Llama3,
    Llama32,
    Llama33,
    Qwen2,
    Qwen25,
}

/// The largest prompt, in UTF-8 bytes, that a model is given.
pub open spec fn model_budget(model: SupportedModel) -> nat {
    match model {
        SupportedModel::Llama3 => 8_000,
        SupportedModel::Llama32 => 128_000,
        SupportedModel::Llama33 => 128_000,
        SupportedModel::Qwen2 => 131_000,
        SupportedModel::Qwen25 => 131_000,
    }
}

/// The largest prompt, in UTF-8 bytes, that `model` is given.
pub fn max_content_length(model: SupportedModel) -> (r: usize)
    ensures
        r as nat == model_budget(model),
{
    match model {
        SupportedModel::Llama3 => 8_000,
        SupportedModel::Llama32 => 128_000,
        SupportedModel::Llama33 => 128_000,
        SupportedModel::Qwen2 => 131_000,
        SupportedModel::Qwen25 => 131_000,
    }
}

/// The segments joined in the order they were pushed.
pub open spec fn concat_all(segments: Seq<Seq<char>>) -> Seq<char>
    decreases segments.len(),
{
    if segments.len() == 0 {
        Seq::empty()
    } else {
        concat_all(segments.drop_last()) + segments.last()
    }
}

/// The length of a text in UTF-8 bytes.
pub open spec fn byte_len(s: Seq<char>) -> nat {
    encode_utf8(s).len()
}

/// A count, capped at the largest `usize`.
pub open spec fn clamped(n: nat) -> nat {
    if n > usize::MAX {
        usize::MAX as nat
    } else {
        n
    }
}

/// What rendering `segments` under `budget` gives: the joined text, or by how
/// many bytes it is too long (capped at the largest `usize`).
pub open spec fn render_of(segments: Seq<Seq<char>>, budget: nat) -> Result<Seq<char>, nat> {
    let text = concat_all(segments);
    if byte_len(text) <= budget {
        Ok(text)
    } else {
        Err((clamped(byte_len(text)) - budget) as nat)
    }
}

/// The bytes of two texts joined are the bytes of each.
pub proof fn lemma_byte_len_append(a: Seq<char>, b: Seq<char>)
    ensures
        byte_len(a + b) == byte_len(a) + byte_len(b),
    decreases a.len(),
{
    if a.len() == 0 {
        assert(a + b =~= b);
    } else {
        assert((a + b).drop_first() =~= a.drop_first() + b);
        assert((a + b)[0] == a[0]);
        lemma_byte_len_append(a.drop_first(), b);
    }
}

/// The segments after an example is pushed: a delimiter already closing the
/// previous example opens this one too.
pub open spec fn with_example(segments: Seq<Seq<char>>, example: Seq<char>) -> Seq<Seq<char>> {
    if segments.len() > 0 && segments.last() == EXAMPLE_SEPARATOR@ {
        segments.drop_last() + seq![EXAMPLE_SEPARATOR@, example, EXAMPLE_SEPARATOR@]
    } else {
        segments + seq![EXAMPLE_SEPARATOR@, example, EXAMPLE_SEPARATOR@]
    }
}

/// The rendered prompt would be longer than the model takes.
#[derive(Clone, Copy, Debug, PartialEq, Eq, Structural)]
pub struct PromptTooLargeError {
    /// How many bytes over the budget the prompt is.
    pub overflow: usize,
}

/// A prompt under construction, with the budget of its target model.
pub struct Prompt {
    lines: Vec<String>,
    model: SupportedModel,
}

impl Prompt {
    /// The segments pushed so far.
    pub closed spec fn segments(&self) -> Seq<Seq<char>> {
        self.lines@.map_values(|l: String| l@)
    }

    /// The budget, in UTF-8 bytes.
    pub closed spec fn budget(&self) -> nat {
        model_budget(self.model)
    }

    /// An empty prompt with the budget of `model`.
    pub fn new(model: SupportedModel) -> (r: Prompt)
        ensures
            r.segments() == Seq::<Seq<char>>::empty(),
            r.budget() == model_budget(model),
    {
        let r = Prompt { lines: Vec::new(), model };
        assert(r.segments() =~= Seq::<Seq<char>>::empty());
        r
    }

    /// Pushes a line followed by a line separator.
    pub fn push(&mut self, line: &str)
        ensures
            final(self).segments() == old(self).segments() + seq![line@, LINE_SEPARATOR@],
            final(self).budget() == old(self).budget(),
    {
        self.lines.push(line.to_string());
        self.lines.push(LINE_SEPARATOR.to_string());
        assert(self.segments() =~= old(self).segments() + seq![line@, LINE_SEPARATOR@]);
    }

    /// Pushes an example between two example delimiters; consecutive examples
    /// share the delimiter between them.
    pub fn push_example(&mut self, example: String)
        ensures
            final(self).segments() == with_example(old(self).segments(), example@),
            final(self).budget() == old(self).budget(),
    {
        let n = self.lines.len();
        let sep = EXAMPLE_SEPARATOR.to_string();
        if n > 0 && self.lines[n - 1] == sep {
            self.lines.pop();
            assert(self.segments() =~= old(self).segments().drop_last());
        }
        let ex = example;
        self.lines.push(EXAMPLE_SEPARATOR.to_string());
        self.lines.push(ex);
        self.lines.push(EXAMPLE_SEPARATOR.to_string());
        assert(self.segments() =~= with_example(old(self).segments(), example@));
    }

    /// The segments joined in push order, or `PromptTooLargeError` with the
    /// overflow when the text is longer than the budget. Never truncates.
    pub fn render(&self) -> (r: Result<String, PromptTooLargeError>)
        ensures
            match r {
                Ok(s) => render_of(self.segments(), self.budget()) == Ok::<Seq<char>, nat>(s@),
                Err(e) => render_of(self.segments(), self.budget()) == Err::<Seq<char>, nat>(
                    e.overflow as nat,
                ),
            },
    {
        let budget = max_content_length(self.model);
        let mut text = String::new();
        let mut total: usize = 0;
        let mut i: usize = 0;
        while i < self.lines.len()
            invariant
                i <= self.lines.len(),
                text@ == concat_all(self.segments().take(i as int)),
                total as nat == clamped(byte_len(text@)),
            decreases self.lines.len() - i,
        {
            assert(self.segments().take(i + 1).drop_last() =~= self.segments().take(i as int));
            let seg = self.lines[i].as_str();
            let width = seg.as_bytes().len();
            proof {
                lemma_byte_len_append(text@, seg@);
            }
            total = if total > usize::MAX - width {
                usize::MAX
            } else {
                total + width
            };
            text = text.concat(seg);
            i = i + 1;
        }
        assert(self.segments().take(i as int) =~= self.segments());
        if total <= budget {
            Ok(text)
        } else {
            Err(PromptTooLargeError { overflow: total - budget })
        }
    }
}

/// Joining is order-preserving: the text of two runs of segments is the text
/// of the first followed by the text of the second.
pub proof fn lemma_concat_append(a: Seq<Seq<char>>, b: Seq<Seq<char>>)
    ensures
        concat_all(a + b) == concat_all(a) + concat_all(b),
    decreases b.len(),
{
    if b.len() == 0 {
        assert(a + b =~= a);
        assert(concat_all(a) + concat_all(b) =~= concat_all(a));
    } else {
        assert((a + b).drop_last() =~= a + b.drop_last());
        lemma_concat_append(a, b.drop_last());
        assert(concat_all(a) + concat_all(b) =~= concat_all(a) + concat_all(b.drop_last())
            + b.last());
    }
}

/// Two prompts built by the same pushes under the same budget render to the
/// same result, and pushing a line adds exactly that line and a separator at
/// the end of the text.
pub proof fn lemma_render_repeatable(p: Prompt, q: Prompt, line: Seq<char>)
    requires
        p.segments() == q.segments(),
        p.budget() == q.budget(),
    ensures
        render_of(p.segments(), p.budget()) == render_of(q.segments(), q.budget()),
        concat_all(p.segments() + seq![line, LINE_SEPARATOR@]) == concat_all(p.segments())
            + line + LINE_SEPARATOR@,
{
    lemma_concat_append(p.segments(), seq![line, LINE_SEPARATOR@]);
    assert(seq![line, LINE_SEPARATOR@].drop_last() =~= seq![line]);
    assert(seq![line].drop_last() =~= Seq::<Seq<char>>::empty());
    assert(concat_all(Seq::<Seq<char>>::empty()) == Seq::<char>::empty());
    assert(concat_all(seq![line]) == concat_all(Seq::<Seq<char>>::empty()) + line);
    assert(Seq::<char>::empty() + line =~= line);
}

/// For every model, a prompt whose UTF-8 length exceeds the model's budget
/// renders to `PromptTooLargeError` with the overflow, never to a shortened
/// text.
pub proof fn lemma_over_budget_fails(model: SupportedModel, segments: Seq<Seq<char>>)
    requires
        byte_len(concat_all(segments)) > model_budget(model),
    ensures
        render_of(segments, model_budget(model)) == Err::<Seq<char>, nat>(
            (clamped(byte_len(concat_all(segments))) - model_budget(model)) as nat,
        ),
        byte_len(concat_all(segments)) <= usize::MAX ==> render_of(segments, model_budget(model))
            == Err::<Seq<char>, nat>(
            (byte_len(concat_all(segments)) - model_budget(model)) as nat,
        ),
{
}

} // verus!
