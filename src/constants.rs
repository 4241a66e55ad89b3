use vstd::prelude::*;
use crate::response::texts_view;

verus! {

/// Example abstract.
pub const SUMMARY_EXAMPLE_1: &'static str = "In 'The Innocent Man', John Grisham tells the shocking true story of four innocent men wrongfully convicted of murder in Ada, Oklahoma. Ron Williamson, a mentally-disturbed former baseball player, is wrongly accused of murdering Debbie Carter and was pursued with fabricated testimony and flawed science despite lacking hard evidence. Dennis Fritz, a regular guy, was also wrongly accused as an accomplice due to his friendship with Ron. The book highlights how easily justice can be miscarried, and how hard it is for innocent people to escape the system once they are trapped in it.";

/// Example abstract.
pub const SUMMARY_EXAMPLE_2: &'static str = "Nothing in life is fixed or permanent, including ourselves, making it impossible to find lasting security. Suffering is not just physical pain   but also emotional and mental distress that is an inherent part of life. Buddhism rejects the idea of a permanent self or soul, instead seeing our identity as composed of temporary elements such as form, feeling-sensation, perception, etc. To overcome suffering, Buddhism begins with recognizing its nature and offering a path to liberation through understanding its cause - a deeply-rooted sense of 'I' - and following the Noble Eightfold Path. This eight-practice path involves cultivating moral restraint, mindfulness, and concentration to overcome suffering and achieve spiritual enlightenment, which can be achieved through regular practice of meditation that helps quiet the mind and observe thoughts, emotions, and impulses without judgment or attachment.";

/// Example abstract.
pub const SUMMARY_EXAMPLE_3: &'static str = "The balance sheet provides an overview of a company's finances at a moment in time but lacks context for longer-term trends, making it necessary to compare with previous periods. To assess a company's financial well-being, investors can use various ratios derived from the balance sheet, such as the debt-to-equity ratio and acid-test ratio, which provide valuable insights alongside income statements and statement of cash flows. The balance sheet adheres to the accounting equation: Assets = Liabilities + Shareholders' Equity, reflecting that a company pays for its assets by either borrowing or investing equity. When a company takes on debt or issues equity, the balance sheet reflects these changes by increasing liabilities or shareholder equity, respectively, balancing the two sides of the equation.";

/// Example abstracts
pub open spec fn summary_example_texts() -> Seq<Seq<char>> {
    seq![SUMMARY_EXAMPLE_1@, SUMMARY_EXAMPLE_2@, SUMMARY_EXAMPLE_3@]
}

/// Example abstracts
pub fn summarization_examples() -> (r: Vec<&'static str>)
    ensures
        slices_view(r@) == summary_example_texts(),
{
    let r = vec![SUMMARY_EXAMPLE_1, SUMMARY_EXAMPLE_2, SUMMARY_EXAMPLE_3];
    assert(slices_view(r@) =~= summary_example_texts());
    r
}

/// Example title.
pub const TITLE_EXAMPLE_1: &'static str = "The Girl With The Dragon Tattoo";

/// Example title.
pub const TITLE_EXAMPLE_2: &'static str = "Unwrapping the Intricate Interplay Between Energy Dependency and Macroeconomic Volatility in OECD Countries";

/// Example title.
pub const TITLE_EXAMPLE_3: &'static str = "Evaluating the Role of GDP Per Capita, Air Pollution and Non-Economic Factors in Determining Health Expenditure: Evidence from Asian Region Using Instrumental Variables Techniques";

/// Example title.
pub const TITLE_EXAMPLE_4: &'static str = "Your Table Is Ready: Tales of a New York City Maître D'";

/// Example title.
pub const TITLE_EXAMPLE_5: &'static str = "The Silent Patient";

/// Example titles
pub open spec fn title_example_texts() -> Seq<Seq<char>> {
    seq![TITLE_EXAMPLE_1@, TITLE_EXAMPLE_2@, TITLE_EXAMPLE_3@, TITLE_EXAMPLE_4@, TITLE_EXAMPLE_5@]
}

/// Example titles
pub fn title_examples() -> (r: Vec<&'static str>)
    ensures
        slices_view(r@) == title_example_texts(),
{
    let r = vec![TITLE_EXAMPLE_1, TITLE_EXAMPLE_2, TITLE_EXAMPLE_3, TITLE_EXAMPLE_4, TITLE_EXAMPLE_5];
    assert(slices_view(r@) =~= title_example_texts());
    r
}

/// Example keyword lists, comma-separate.
pub const KEYWORD_EXAMPLE_1: &'static str = "MachineLearning, ArtificialIntelligence, DataScience, PythonProgramming, DataAnalysis, Algorithms";

/// Example keyword lists, comma-separate.
pub const KEYWORD_EXAMPLE_2: &'static str = "LovePoetry, NatureInspiration, FreeVerse, RhythmAndMeter, ImageryInPoetry, SocialCommentary";

/// Example keyword lists, comma-separate.
pub const KEYWORD_EXAMPLE_3: &'static str = "ElectionCampaigns, GovernmentPolicy, SocialJustice, NationalSecurity, InternationalRelations, VotingRights";

/// Example keyword lists, comma-separate.
pub const KEYWORD_EXAMPLE_4: &'static str = "MentalIllnessAwareness, AnxietyManagement, DepressionSupport, TraumaRecovery, MindfulnessPractices, MentalHealthStigma";

/// Example keyword lists, comma-separate.
pub const KEYWORD_EXAMPLE_5: &'static str = "SingletonPattern, FactoryMethodPattern, ObserverPattern, StrategyPattern, DecoratorPattern, TemplateMethodPattern";

/// Example keyword lists, comma-separated
pub open spec fn keyword_example_texts() -> Seq<Seq<char>> {
    seq![KEYWORD_EXAMPLE_1@, KEYWORD_EXAMPLE_2@, KEYWORD_EXAMPLE_3@, KEYWORD_EXAMPLE_4@, KEYWORD_EXAMPLE_5@]
}

/// Example keyword lists, comma-separated
pub fn keyword_examples() -> (r: Vec<&'static str>)
    ensures
        slices_view(r@) == keyword_example_texts(),
{
    let r = vec![KEYWORD_EXAMPLE_1, KEYWORD_EXAMPLE_2, KEYWORD_EXAMPLE_3, KEYWORD_EXAMPLE_4, KEYWORD_EXAMPLE_5];
    assert(slices_view(r@) =~= keyword_example_texts());
    r
}

/// The views of a list of string slices.
pub open spec fn slices_view(v: Seq<&str>) -> Seq<Seq<char>> {
    v.map_values(|s: &str| s@)
}

/// The first `desired` options when that many are available and `desired`
/// is positive; all of them otherwise.
pub open spec fn selected(options: Seq<Seq<char>>, desired: nat) -> Seq<Seq<char>> {
    if 0 < desired && desired <= options.len() {
        options.take(desired as int)
    } else {
        options
    }
}

/// Selects as many examples as wanted, or all of them when that is not
/// possible.
pub fn select_examples(options: Vec<&str>, desired_example_count: usize) -> (r: Vec<String>)
    ensures
        texts_view(r@) == selected(
            slices_view(options@),
            desired_example_count as nat,
        ),
{
    let n = if desired_example_count > 0 && desired_example_count <= options.len() {
        desired_example_count
    } else {
        options.len()
    };
    let ghost want = selected(slices_view(options@), desired_example_count as nat);
    let mut r: Vec<String> = Vec::new();
    let mut i: usize = 0;
    while i < n
        invariant
            n <= options.len(),
            want.len() == n,
            want == selected(slices_view(options@), desired_example_count as nat),
            i <= n,
            r@.len() == i,
            texts_view(r@) == want.take(i as int),
        decreases n - i,
    {
        let item = options[i].to_string();
        assert(want[i as int] == options@[i as int]@);
        assert(item@ == options@[i as int]@);
        let ghost before = r@;
        r.push(item);
        assert(r@ == before.push(item));
        assert forall|j: int| 0 <= j < i + 1 implies #[trigger] texts_view(r@)[j] == want.take(
            i + 1,
        )[j] by {
            if j < i {
                assert(texts_view(before)[j] == want.take(i as int)[j]);
                assert(r@[j] == before[j]);
            } else {
                assert(r@[j] == item);
            }
        }
        assert(texts_view(r@) =~= want.take(i + 1));
        i = i + 1;
    }
    assert(want.take(n as int) =~= want);
    r
}

} // verus!
