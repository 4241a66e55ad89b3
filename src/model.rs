use vstd::prelude::*;
use vstd::string::*;
use crate::response::spells_exactly;

verus! {

/// The fixed set of article genres.
#[derive(Clone, Copy, Debug, PartialEq, Eq, Structural)]
pub enum ArticleGenre {
    News,
    Technology,
    Health,
    Sports,
    Entertainment,
    Business,
    Science,
    Education,
    Lifestyle,
    Travel,
    Food,
    Politics,
    Opinion,
    History,
    Art,
}

/// Number of genres.
pub const GENRE_COUNT: usize = 15;

/// The canonical (upper-case) name of a genre.
pub open spec fn genre_name(g: ArticleGenre) -> Seq<char> {
    match g {
        ArticleGenre::News => "NEWS"@,
        ArticleGenre::Technology => "TECHNOLOGY"@,
        ArticleGenre::Health => "HEALTH"@,
        ArticleGenre::Sports => "SPORTS"@,
        ArticleGenre::Entertainment => "ENTERTAINMENT"@,
        ArticleGenre::Business => "BUSINESS"@,
        ArticleGenre::Science => "SCIENCE"@,
        ArticleGenre::Education => "EDUCATION"@,
        ArticleGenre::Lifestyle => "LIFESTYLE"@,
        ArticleGenre::Travel => "TRAVEL"@,
        ArticleGenre::Food => "FOOD"@,
        ArticleGenre::Politics => "POLITICS"@,
        ArticleGenre::Opinion => "OPINION"@,
        ArticleGenre::History => "HISTORY"@,
        ArticleGenre::Art => "ART"@,
    }
}

/// The genres in declaration order.
pub open spec fn genre_at(i: int) -> ArticleGenre {
    if i == 0 { ArticleGenre::News }
    else if i == 1 { ArticleGenre::Technology }
    else if i == 2 { ArticleGenre::Health }
    else if i == 3 { ArticleGenre::Sports }
    else if i == 4 { ArticleGenre::Entertainment }
    else if i == 5 { ArticleGenre::Business }
    else if i == 6 { ArticleGenre::Science }
    else if i == 7 { ArticleGenre::Education }
    else if i == 8 { ArticleGenre::Lifestyle }
    else if i == 9 { ArticleGenre::Travel }
    else if i == 10 { ArticleGenre::Food }
    else if i == 11 { ArticleGenre::Politics }
    else if i == 12 { ArticleGenre::Opinion }
    else if i == 13 { ArticleGenre::History }
    else { ArticleGenre::Art }
}

/// What `str::to_uppercase` makes of a text.
pub uninterp spec fn upper_of(s: Seq<char>) -> Seq<char>;

/// Relies on `str::to_uppercase`: the Unicode upper-case form of the text,
/// which depends on the text alone.
#[verifier::external_body]
fn uppercase(s: &str) -> (r: String)
    ensures
        r@ == upper_of(s@),
{
    s.to_uppercase()
}

/// The first genre (in declaration order, from `i` on) whose canonical name
/// is exactly `s`.
pub open spec fn genre_from(s: Seq<char>, i: int) -> Option<ArticleGenre>
    decreases 15 - i,
{
    if i < 0 || i >= 15 {
        None
    } else if s == genre_name(genre_at(i)) {
        Some(genre_at(i))
    } else {
        genre_from(s, i + 1)
    }
}

/// The genre whose canonical name is exactly `s`; `Opinion` when there is none.
pub open spec fn genre_of(s: Seq<char>) -> ArticleGenre {
    match genre_from(s, 0) {
        Some(g) => g,
        None => ArticleGenre::Opinion,
    }
}

/// The genre an answer names once normalised to upper case.
pub open spec fn resolved_genre(s: Seq<char>) -> ArticleGenre {
    genre_of(upper_of(s))
}

impl ArticleGenre {
    /// The canonical upper-case name.
    pub fn as_str(&self) -> (r: &'static str)
        ensures
            r@ == genre_name(*self),
    {
        match self {
            ArticleGenre::News => "NEWS",
            ArticleGenre::Technology => "TECHNOLOGY",
            ArticleGenre::Health => "HEALTH",
            ArticleGenre::Sports => "SPORTS",
            ArticleGenre::Entertainment => "ENTERTAINMENT",
            ArticleGenre::Business => "BUSINESS",
            ArticleGenre::Science => "SCIENCE",
            ArticleGenre::Education => "EDUCATION",
            ArticleGenre::Lifestyle => "LIFESTYLE",
            ArticleGenre::Travel => "TRAVEL",
            ArticleGenre::Food => "FOOD",
            ArticleGenre::Politics => "POLITICS",
            ArticleGenre::Opinion => "OPINION",
            ArticleGenre::History => "HISTORY",
            ArticleGenre::Art => "ART",
        }
    }

    /// The genre at position `i` in declaration order.
    pub fn from_index(i: usize) -> (r: ArticleGenre)
        requires
            i < GENRE_COUNT,
        ensures
            r == genre_at(i as int),
    {
        if i == 0 { ArticleGenre::News }
        else if i == 1 { ArticleGenre::Technology }
        else if i == 2 { ArticleGenre::Health }
        else if i == 3 { ArticleGenre::Sports }
        else if i == 4 { ArticleGenre::Entertainment }
        else if i == 5 { ArticleGenre::Business }
        else if i == 6 { ArticleGenre::Science }
        else if i == 7 { ArticleGenre::Education }
        else if i == 8 { ArticleGenre::Lifestyle }
        else if i == 9 { ArticleGenre::Travel }
        else if i == 10 { ArticleGenre::Food }
        else if i == 11 { ArticleGenre::Politics }
        else if i == 12 { ArticleGenre::Opinion }
        else if i == 13 { ArticleGenre::History }
        else { ArticleGenre::Art }
    }

}

/// The genre whose canonical name is exactly `name`, or the default
/// `Opinion` when no genre has that name.
pub fn lookup_genre(name: &str) -> (r: ArticleGenre)
    ensures
        r == genre_of(name@),
{
    let mut i: usize = 0;
    while i < GENRE_COUNT
        invariant
            i <= GENRE_COUNT,
            genre_from(name@, 0) == genre_from(name@, i as int),
        decreases GENRE_COUNT - i,
    {
        let g = ArticleGenre::from_index(i);
        if spells_exactly(name, g.as_str()) {
            return g;
        }
        i = i + 1;
    }
    ArticleGenre::Opinion
}

/// The genre an answer names: the answer is upper-cased, then looked up; an
/// unknown genre gives the default `Opinion`, never an error.
pub fn resolve_genre(s: &str) -> (r: ArticleGenre)
    ensures
        r == resolved_genre(s@),
{
    let upper = uppercase(s);
    lookup_genre(upper.as_str())
}

impl Default for ArticleGenre {
    fn default() -> (r: ArticleGenre)
        ensures
            r == ArticleGenre::Opinion,
    {
        ArticleGenre::Opinion
    }
}

/// The string map is a bijection one way round: every genre's canonical name
/// resolves back to that genre.
pub proof fn lemma_name_resolves(g: ArticleGenre)
    ensures
        genre_of(genre_name(g)) == g,
{
    reveal_strlit("NEWS");
    reveal_strlit("TECHNOLOGY");
    reveal_strlit("HEALTH");
    reveal_strlit("SPORTS");
    reveal_strlit("ENTERTAINMENT");
    reveal_strlit("BUSINESS");
    reveal_strlit("SCIENCE");
    reveal_strlit("EDUCATION");
    reveal_strlit("LIFESTYLE");
    reveal_strlit("TRAVEL");
    reveal_strlit("FOOD");
    reveal_strlit("POLITICS");
    reveal_strlit("OPINION");
    reveal_strlit("HISTORY");
    reveal_strlit("ART");
    let s = genre_name(g);
    assert forall|i: int| 0 <= i < 15 && genre_at(i) != g implies s != #[trigger] genre_name(
        genre_at(i),
    ) by {
        let t = genre_name(genre_at(i));
        if s.len() == t.len() {
            if s[0] != t[0] {
            } else if s[1] != t[1] {
            } else {
                assert(s[2] != t[2]);
            }
        }
    }
    reveal_with_fuel(genre_from, 16);
}

/// The metadata field a stage of the pipeline produces.
#[derive(Clone, Copy, Debug, PartialEq, Eq, Structural)]
pub enum ResponseOutputType {
    Title,
    Description,
    Genre,
    Keywords,
}

} // verus!
