use vstd::prelude::*;
use crate::generator::CompletionRequest;
use crate::model::{ArticleGenre, ResponseOutputType, genre_name};
use crate::response::{JSONResponse, list_response_json, text_response_json};

verus! {

/// The persona given to the model when it reformats an answer.
pub const JSON_PERSONA: &'static str = "You are a REST API and can only respond in JSON. You have been given a strict structure to respond in.";

/// An example summary.
pub const MIDDLE_WAY_SUMMARY: &'static str = " The Middle Way in Buddhism is a philosophy that emphasizes balance, harmony, and respect for the intrinsic dignity of all life. Rooted in the teachings of Shakyamuni Buddha, it advocates against extreme views, whether they be luxurious indulgence or harsh asceticism, promoting instead a moderate path that fosters inner peace and wisdom. Zhiyi further developed this concept by introducing three truths: the truth of temporary existence (physical aspects), the truth of non-substantiality (mental and spiritual aspects), and the essence of life that unifies these opposites. This holistic view underscores the interconnectedness of body, mind, and environment. Nichiren expanded on this by describing life as an elusive reality, neither merely existing nor non-existing but embodying both qualities. He stressed the inherent dignity in all life, encouraging a compassionate and harmonious approach to existence. This philosophy aligns with Gandhi's assertion about considering the poorest man, linking the Middle Way to social justice. The Soka Gakkai envisions the Middle Way as a path that transforms individuals and societies toward happiness and coexistence. It involves living positively, constantly reflecting on actions to ensure they align with humanity's ethical path. This principle is seen as a guiding light against the extremes of modernity, offering a pathway towards peace and fulfillment. In essence, the Middle Way is not just about personal enlightenment but also about fostering social harmony and collective well-being, respecting life's sanctity, and seeking wisdom to benefit both individuals and society.";

/// An example summary.
pub const POKEMON_SUMMARY: &'static str = " The article explores prevalent competitive Pokémon strategies, highlighting their effectiveness and complexity. Despite the vast array of Pokémon and moves, certain strategies consistently dominate, offering both offensive and defensive advantages. 1. **Perish Traps**: Utilize the Perish Song move to KO opponents after three turns. Enhanced with abilities like Shadow Tag, these teams trap foes, making it easier to apply the finishing move. 2. **Hazard Stacks**: Employ multiple Hazard moves such as Stealth Rock and Spikes to progressively chip away at opponents' health. Teams often use dedicated setters and a mix of defensive and offensive Pokémon to maintain balance. 3. **Sun Teams**: Leverage harsh sunlight to boost fire-type attacks and abilities like Chlorophyll. These teams are known for their offensive prowess, especially with Dought-boosted Pokémon. 4. **Rain Teams**: Utilize the Rain Weather Effect to enhance Swift Swim moves and reduce fire damage. This strategy allows for swift sweeps and defensive positioning with rain-resistant Pokémon. 5. **Sandstorm Teams**: Initiate sandstorms with Tyranitar's Sandstream ability, causing widespread damage unless countered by specific types like rock or ground. These strategies illustrate how strategic team compositions and weather conditions can tilt the balance in competitive Pokémon battles, making them both challenging and thrilling for players. ";

/// An example summary.
pub const NIHILISM_SUMMARY: &'static str = " Nietzsche's exploration of nihilism serves as a cornerstone in understanding the intellectual landscape of the late 19th and early 20th centuries. Nihilism, as defined by Nietzsche, posits the absence of inherent meaning or value in life, challenging conventional moral and religious frameworks. He viewed this stance with apprehension, recognizing its potential to undermine societal values and belief systems. In the 20th century, nihilistic themes became prominent in philosophy and literature, particularly through the works of existentialists like Sartre and Camus, who grappled with the 'absurd' nature of existence. While these thinkers often expressed despair, they also sought ways to live authentically despite the lack of inherent purpose. This era witnessed a blend of gloom and resilience as individuals navigated the complexities of meaninglessness. Postmodernity shares a skepticism towards grand narratives and meta-discourses, aligning with nihilistic ideas about the baselessness of values. However, postmodernity doesn't equate to nihilism itself; it's more about the critical engagement with these stories rather than their outright rejection. Nietzsche believed that if we deconstruct existing interpretations, we might uncover new paths forward—a process akin to postmodern deconstruction leading to reconstruction. Language plays a crucial role in this discourse, as Nietzsche argued that language and metaphors shape our understanding of reality. If language fails us, so does our ability to communicate meaning, underscoring the epistemological challenges inherent in nihilism. Social critics and artists have often depicted themes of alienation and existential despair, reflecting nihilistic ideas about the absence of inherent purpose. While Nietzsche saw nihilism as a necessary destruction leading to potential renewal, others may view it as an insurmountable problem without transcendence or belief. Practically, nihilism raises questions about moral relativism and how individuals navigate their lives without inherent meaning. Some counter this by finding localized meaning in relationships, art, and personal goals, suggesting that meaning can be constructed on a smaller scale. Antifoundationalism, the notion that there's no foundation for knowledge or value, ties into postmodern views of truth as constructed rather than discovered. This perspective resonates with nihilistic themes about the baselessness of values. In conclusion, Nietzsche's ideas on nihilism provide a rich tapestry to explore its evolution and impact across centuries. From its philosophical origins to its influence in shaping artistic and cultural responses, nihilism continues to be a significant lens through which we view the human condition. It challenges us to consider the possibilities of meaning-making in an era marked by doubt and inquiry. ";

/// The example answers shown for a field, each as a structured response.
pub open spec fn example_responses(k: ResponseOutputType) -> Seq<Seq<char>> {
    match k {
        ResponseOutputType::Description => seq![
            text_response_json(MIDDLE_WAY_SUMMARY@),
            text_response_json(POKEMON_SUMMARY@),
            text_response_json(NIHILISM_SUMMARY@),
        ],
        ResponseOutputType::Title => seq![
            text_response_json("The Fall of the Roman Empire"@),
            text_response_json("The Economic Impact of Climate Change"@),
            text_response_json("The Relationship Between Art and Politics"@),
        ],
        ResponseOutputType::Genre => seq![
            text_response_json(genre_name(ArticleGenre::Art)),
            text_response_json(genre_name(ArticleGenre::Opinion)),
            text_response_json(genre_name(ArticleGenre::Technology)),
        ],
        ResponseOutputType::Keywords => seq![
            list_response_json(seq!["Roman Empire"@, "History"@]),
            list_response_json(seq!["Climate Change"@, "Economy"@]),
            list_response_json(seq!["Art"@, "Politics"@]),
        ],
    }
}

/// The responses, each followed by a newline.
pub open spec fn conversation(responses: Seq<Seq<char>>) -> Seq<char>
    decreases responses.len(),
{
    if responses.len() == 0 {
        Seq::empty()
    } else {
        conversation(responses.drop_last()) + responses.last() + "\n"@
    }
}

/// The user message that asks for `content` to be reformatted as field `k`.
pub open spec fn format_prompt(k: ResponseOutputType, content: Seq<char>) -> Seq<char> {
    "Here are examples of appropriate responses: "@ + conversation(example_responses(k))
        + "\nHere is the data that must be formatted: "@ + content
}

/// The responses, each followed by a newline.
pub fn format_conversation(responses: [String; 3]) -> (r: String)
    ensures
        r@ == conversation(responses@.map_values(|s: String| s@)),
{
    let ghost views = responses@.map_values(|s: String| s@);
    let mut text = String::new();
    let mut i: usize = 0;
    while i < 3
        invariant
            i <= 3,
            views == responses@.map_values(|s: String| s@),
            text@ == conversation(views.take(i as int)),
        decreases 3 - i,
    {
        assert(views.take(i + 1).drop_last() =~= views.take(i as int));
        text = text.concat(responses[i].as_str()).concat("\n");
        i = i + 1;
    }
    assert(views.take(3) =~= views);
    text
}

fn text_example(s: &str) -> (r: String)
    ensures
        r@ == text_response_json(s@),
{
    JSONResponse::from_text(s).to_json()
}

fn list_example(a: &str, b: &str) -> (r: String)
    ensures
        r@ == list_response_json(seq![a@, b@]),
{
    let v = vec![a.to_string(), b.to_string()];
    let r = JSONResponse { response: v }.to_json();
    assert(crate::response::texts_view(v@) =~= seq![a@, b@]);
    r
}

/// The example answers shown for a field, each as a structured response.
pub fn example_texts(k: ResponseOutputType) -> (r: [String; 3])
    ensures
        r@.map_values(|s: String| s@) == example_responses(k),
{
    let r = match k {
        ResponseOutputType::Description => [
            text_example(MIDDLE_WAY_SUMMARY),
            text_example(POKEMON_SUMMARY),
            text_example(NIHILISM_SUMMARY),
        ],
        ResponseOutputType::Title => [
            text_example("The Fall of the Roman Empire"),
            text_example("The Economic Impact of Climate Change"),
            text_example("The Relationship Between Art and Politics"),
        ],
        ResponseOutputType::Genre => [
            text_example(ArticleGenre::Art.as_str()),
            text_example(ArticleGenre::Opinion.as_str()),
            text_example(ArticleGenre::Technology.as_str()),
        ],
        ResponseOutputType::Keywords => [
            list_example("Roman Empire", "History"),
            list_example("Climate Change", "Economy"),
            list_example("Art", "Politics"),
        ],
    };
    assert(r@.map_values(|s: String| s@) =~= example_responses(k));
    r
}

/// The second stage: asks the model, as a JSON-only service shown example
/// answers, to restate an answer as a structured response.
pub struct OutputFormatter {
    model: String,
}

impl OutputFormatter {
    /// The model asked.
    pub closed spec fn model_view(&self) -> Seq<char> {
        self.model@
    }

    /// A formatter for `model`.
    pub fn new(model: String) -> (r: OutputFormatter)
        ensures
            r.model_view() == model@,
    {
        OutputFormatter { model }
    }

    /// The request that asks for `content` to be restated as field `k`,
    /// constrained to JSON.
    pub fn format_request(&self, content: &str, k: ResponseOutputType) -> (r: CompletionRequest)
        ensures
            r.model@ == self.model_view(),
            r.prompt@ == format_prompt(k, content@),
            r.system matches Some(s) && s@ == JSON_PERSONA@,
            r.json_format,
    {
        let examples = format_conversation(example_texts(k));
        let prompt = "Here are examples of appropriate responses: ".to_string().concat(
            examples.as_str(),
        ).concat("\nHere is the data that must be formatted: ").concat(content);
        CompletionRequest {
            model: self.model.clone(),
            prompt,
            system: Some(JSON_PERSONA.to_string()),
            json_format: true,
        }
    }
}

} // verus!
