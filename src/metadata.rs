use vstd::prelude::*;
use chrono::Datelike;
use crate::model::ArticleGenre;

verus! {

/// What slugify_rs makes of a title with its default options.
pub uninterp spec fn slug_of(title: Seq<char>) -> Seq<char>;

/// The (word count, seconds) that estimated_read_time computes for a text
/// with its default options.
pub uninterp spec fn read_estimate(content: Seq<char>) -> (u64, u64);

/// A character that a slug may hold.
pub open spec fn is_slug_char(c: char) -> bool {
    ('a' <= c && c <= 'z') || ('0' <= c && c <= '9') || c == '-'
}

/// Relies on `slugify_rs::slugify` with no stop words, `-` as separator, no
/// length limit and no random suffix: it keeps only lower-case ASCII letters,
/// digits and separators.
#[verifier::external_body]
fn slugify_title(title: &str) -> (r: String)
    ensures
        r@ == slug_of(title@),
        forall|i: int| 0 <= i < r@.len() ==> is_slug_char(#[trigger] r@[i]),
{
    slugify_rs::slugify(title, "", "-", None, false, 5)
}

/// Relies on `estimated_read_time::text` with default options, read through
/// `ReadTime::word_count` and `ReadTime::seconds`.
#[verifier::external_body]
fn estimate_read(content: &str) -> (r: (u64, u64))
    ensures
        r == read_estimate(content@),
{
    let read = estimated_read_time::text(content, &estimated_read_time::Options::default());
    (read.word_count(), read.seconds())
}

/// Relies on `chrono::Utc::now().date_naive()`, read through `Datelike`: a
/// `NaiveDate` only holds days of the proleptic Gregorian calendar, with
/// months from 1 to 12 and days from 1 to the last day of the month.
#[verifier::external_body]
fn utc_today() -> (r: (i32, u32, u32))
    ensures
        1 <= r.1 <= 12,
        1 <= r.2 <= days_in_month(r.0 as int, r.1 as int),
{
    let d = chrono::Utc::now().date_naive();
    (d.year(), d.month(), d.day())
}

/// A calendar date.
#[derive(Clone, Copy, Debug, PartialEq, Eq, Structural)]
pub struct CalendarDate {
    pub year: i32,
    pub month: u32,
    pub day: u32,
}

/// Whether a year of the Gregorian calendar has 366 days.
pub open spec fn is_leap_year(year: int) -> bool {
    (year % 4 == 0 && year % 100 != 0) || year % 400 == 0
}

/// The number of days in a month of a year.
pub open spec fn days_in_month(year: int, month: int) -> int {
    if month == 2 {
        if is_leap_year(year) {
            29
        } else {
            28
        }
    } else if month == 4 || month == 6 || month == 9 || month == 11 {
        30
    } else {
        31
    }
}

/// The number of days in a month of a year.
pub fn month_length(year: i32, month: u32) -> (r: u32)
    ensures
        r as int == days_in_month(year as int, month as int),
{
    if month == 2 {
        if (year % 4 == 0 && year % 100 != 0) || year % 400 == 0 {
            29
        } else {
            28
        }
    } else if month == 4 || month == 6 || month == 9 || month == 11 {
        30
    } else {
        31
    }
}

impl CalendarDate {
    /// The date exists in the Gregorian calendar.
    pub open spec fn wf(&self) -> bool {
        1 <= self.month <= 12 && 1 <= self.day <= days_in_month(self.year as int, self.month as int)
    }

    /// The date with these parts, when it exists.
    pub fn new(year: i32, month: u32, day: u32) -> (r: Option<CalendarDate>)
        ensures
            match r {
                Some(d) => d.wf() && d.year == year && d.month == month && d.day == day,
                None => !(CalendarDate { year, month, day }).wf(),
            },
    {
        if 1 <= month && month <= 12 && 1 <= day && day <= month_length(year, month) {
            Some(CalendarDate { year, month, day })
        } else {
            None
        }
    }

    /// Today's date in UTC.
    pub fn today() -> (r: CalendarDate)
        ensures
            r.wf(),
    {
        let (year, month, day) = utc_today();
        CalendarDate { year, month, day }
    }
}

/// Statistics computed from the article text alone.
#[derive(Clone, Copy, Debug, PartialEq, Eq, Structural)]
pub struct AnalyticsData {
    pub reading_time_in_minutes: u64,
    pub length_in_words: u64,
}

/// The word count and whole minutes of reading time of an article.
pub fn get_analytics_data(content: &str) -> (r: AnalyticsData)
    ensures
        r.length_in_words == read_estimate(content@).0,
        r.reading_time_in_minutes == read_estimate(content@).1 / 60,
{
    let (words, seconds) = estimate_read(content);
    AnalyticsData { reading_time_in_minutes: seconds / 60, length_in_words: words }
}

/// When the article was processed, and how long it is.
pub struct AnalyticsMetadata {
    pub created_at: CalendarDate,
    pub length_in_words: u64,
    pub reading_time_in_minutes: u64,
}

impl Default for AnalyticsMetadata {
    /// Today, no words and five minutes.
    fn default() -> (r: AnalyticsMetadata)
        ensures
            r.created_at.wf(),
            r.length_in_words == 0,
            r.reading_time_in_minutes == 5,
    {
        AnalyticsMetadata {
            created_at: CalendarDate::today(),
            length_in_words: 0,
            reading_time_in_minutes: 5,
        }
    }
}

/// What the article is about.
pub struct InterestMetadata {
    pub keywords: Vec<String>,
    pub genre: ArticleGenre,
    pub related_articles: Vec<String>,
}

impl Default for InterestMetadata {
    /// No keywords, no related articles, the default genre.
    fn default() -> (r: InterestMetadata)
        ensures
            r.keywords@.len() == 0,
            r.genre == ArticleGenre::Opinion,
            r.related_articles@.len() == 0,
    {
        InterestMetadata { keywords: Vec::new(), genre: ArticleGenre::Opinion, related_articles: Vec::new() }
    }
}

/// The metadata attached to an article.
pub struct Metadata {
    pub title: String,
    pub description: String,
    pub author: String,
    pub slug: String,
    pub analytics: AnalyticsMetadata,
    pub interest: InterestMetadata,
}

/// The slug of a title.
pub fn make_slug(title: &str) -> (r: String)
    ensures
        r@ == slug_of(title@),
        forall|i: int| 0 <= i < r@.len() ==> is_slug_char(#[trigger] r@[i]),
{
    slugify_title(title)
}

/// The name of the file that holds an article with this slug.
pub fn create_output_file_name(slug: &String) -> (r: String)
    ensures
        r@ == slug@ + ".md"@,
{
    slug.clone().concat(".md")
}

/// Assembles the metadata from the generated fields and the statistics; the
/// slug derives from the title, and there are no related articles.
pub fn build_metadata(
    title: String,
    description: String,
    author: String,
    genre: ArticleGenre,
    keywords: Vec<String>,
    analytics: AnalyticsData,
    created_at: CalendarDate,
) -> (r: Metadata)
    requires
        created_at.wf(),
    ensures
        r.title@ == title@,
        r.description@ == description@,
        r.author@ == author@,
        r.slug@ == slug_of(title@),
        r.analytics.created_at == created_at,
        r.analytics.length_in_words == analytics.length_in_words,
        r.analytics.reading_time_in_minutes == analytics.reading_time_in_minutes,
        r.interest.keywords@ == keywords@,
        r.interest.genre == genre,
        r.interest.related_articles@.len() == 0,
{
    let slug = make_slug(title.as_str());
    Metadata {
        title,
        description,
        author,
        slug,
        analytics: AnalyticsMetadata {
            created_at,
            length_in_words: analytics.length_in_words,
            reading_time_in_minutes: analytics.reading_time_in_minutes,
        },
        interest: InterestMetadata { keywords, genre, related_articles: Vec::new() },
    }
}

/// The front-matter delimiter.
pub const MATTER_DELIMITER: &'static str = "+++";

/// The front-matter block around an encoded body, ending in a newline.
pub open spec fn framed_matter(body: Seq<char>) -> Seq<char> {
    MATTER_DELIMITER@ + "\n"@ + body + "\n"@ + MATTER_DELIMITER@ + "\n"@
}

/// Puts an encoded metadata body between the front-matter delimiters.
pub fn frame_front_matter(body: &str) -> (r: String)
    ensures
        r@ == framed_matter(body@),
{
    MATTER_DELIMITER.to_string().concat("\n").concat(body).concat("\n").concat(
        MATTER_DELIMITER,
    ).concat("\n")
}

/// The output document: the front matter, a blank line, then the article.
pub fn document_text(matter: &str, content: &str) -> (r: String)
    ensures
        r@ == matter@ + "\n"@ + content@,
{
    matter.to_string().concat("\n").concat(content)
}

} // verus!
