//! Posts: their front matter, their dates, and how a source file splits into both.
use vstd::prelude::*;
use chrono::Datelike;
use crate::errors::BuildError;
use crate::paths::{path_extension, path_extension_of};
use crate::text::str_eq;
use crate::text::{
    chars_of, find_first, first_occurrence, lemma_first_occurrence, lemma_first_occurrence_props,
    matches_at, replace_all, replace_all_spec,
    starts_with_seq, string_from_range, occurs_at,
};

verus! {


/// Whether a post is built (`Published`) or kept out of the build (`Draft`).
#[derive(Clone, Copy, Debug, PartialEq, Eq, Structural)]
pub enum Status {
    Published,
    Draft,
}

/// Whether `NaiveDate::from_ymd_opt(year, month, day)` gives a date.
pub uninterp spec fn chrono_date_exists(year: i32, month: u32, day: u32) -> bool;

/// The date that `NaiveDate::parse_from_str(text, "%Y-%m-%d")` reads from `text`, as
/// (year, month, day), or `None` where it reports an error.
pub uninterp spec fn chrono_parsed_ymd(text: Seq<char>) -> Option<(i32, u32, u32)>;

/// The text that `NaiveDate`'s `Display` writes for the date (year, month, day).
pub uninterp spec fn chrono_date_text(year: i32, month: u32, day: u32) -> Seq<char>;

/// `chrono::NaiveDate::from_ymd_opt`: whether the calendar has this day. Claimed: the result
/// is the name above, and a day that exists has its month in 1..=12 and its day in 1..=31.
#[verifier::external_body]
fn chrono_from_ymd_exists(year: i32, month: u32, day: u32) -> (r: bool)
    ensures
        r == chrono_date_exists(year, month, day),
        r ==> 1 <= month <= 12 && 1 <= day <= 31,
{
    chrono::NaiveDate::from_ymd_opt(year, month, day).is_some()
}

/// `chrono::NaiveDate::parse_from_str(text, "%Y-%m-%d")`, read back as (year, month, day).
/// Claimed: success and the date are the name above, and the date it gives is one that
/// `from_ymd_opt` accepts.
#[verifier::external_body]
fn chrono_parse_ymd(text: &str) -> (r: Result<(i32, u32, u32), chrono::ParseError>)
    ensures
        r is Ok <==> chrono_parsed_ymd(text@) is Some,
        r matches Ok(t) ==> chrono_parsed_ymd(text@) == Some(t) && chrono_date_exists(t.0, t.1, t.2),
{
    chrono::NaiveDate::parse_from_str(text, "%Y-%m-%d").map(|d| (d.year(), d.month(), d.day()))
}

/// The decimal digit of `n` (0 to 9).
pub open spec fn decimal_digit(n: int) -> char {
    (n + 48) as char
}

/// `n` (0 to 99) as two decimal digits.
pub open spec fn two_digits(n: int) -> Seq<char> {
    seq![decimal_digit(n / 10), decimal_digit(n % 10)]
}

/// A date of the years 0 to 9999 written `YYYY-MM-DD`.
pub open spec fn iso_date_text(year: int, month: int, day: int) -> Seq<char> {
    two_digits(year / 100) + two_digits(year % 100) + seq!['-'] + two_digits(month) + seq!['-']
        + two_digits(day)
}

/// `NaiveDate::to_string` of the date (year, month, day). Claimed: the result is the name above,
/// and for the years 0 to 9999 it is `YYYY-MM-DD`, each part zero-padded.
#[verifier::external_body]
fn chrono_format_date(year: i32, month: u32, day: u32) -> (r: String)
    requires
        chrono_date_exists(year, month, day),
    ensures
        r@ == chrono_date_text(year, month, day),
        0 <= year <= 9999 ==> r@ == iso_date_text(year as int, month as int, day as int),
{
    chrono::NaiveDate::from_ymd_opt(year, month, day).unwrap().to_string()
}

/// A calendar day that exists.
#[derive(Clone, Copy, Debug)]
pub struct PostDate {
    year: i32,
    month: u32,
    day: u32,
}

impl PostDate {
    #[verifier::type_invariant]
    spec fn is_calendar_day(self) -> bool {
        chrono_date_exists(self.year, self.month, self.day)
    }

    /// The (year, month, day) of the date.
    pub closed spec fn ymd(self) -> (i32, u32, u32) {
        (self.year, self.month, self.day)
    }

    /// The date of the given year, month and day, where the calendar has it
    /// (`NaiveDate::from_ymd_opt`).
    pub fn from_ymd(year: i32, month: u32, day: u32) -> (r: Option<PostDate>)
        ensures
            r is Some <==> chrono_date_exists(year, month, day),
            r matches Some(d) ==> d.ymd() == (year, month, day),
    {
        if chrono_from_ymd_exists(year, month, day) {
            Some(PostDate { year, month, day })
        } else {
            None
        }
    }

    /// The date written as `%Y-%m-%d` in `text`, or the parser's error.
    pub fn parse(text: &str) -> (r: Result<PostDate, chrono::ParseError>)
        ensures
            r is Ok <==> chrono_parsed_ymd(text@) is Some,
            r matches Ok(d) ==> chrono_parsed_ymd(text@) == Some(d.ymd()),
    {
        match chrono_parse_ymd(text) {
            Ok(t) => Ok(PostDate { year: t.0, month: t.1, day: t.2 }),
            Err(e) => Err(e),
        }
    }

    pub fn year(&self) -> (r: i32)
        ensures
            r == self.ymd().0,
    {
        self.year
    }

    pub fn month(&self) -> (r: u32)
        ensures
            r == self.ymd().1,
    {
        self.month
    }

    pub fn day(&self) -> (r: u32)
        ensures
            r == self.ymd().2,
    {
        self.day
    }

    /// The text of the date, as `NaiveDate` displays it (`2026-07-05`).
    pub open spec fn text_spec(self) -> Seq<char> {
        chrono_date_text(self.ymd().0, self.ymd().1, self.ymd().2)
    }

    /// The text of the date, as `NaiveDate` displays it (`2026-07-05`).
    pub fn to_text(&self) -> (r: String)
        ensures
            r@ == self.text_spec(),
            0 <= self.ymd().0 <= 9999 ==> r@ == iso_date_text(
                self.ymd().0 as int,
                self.ymd().1 as int,
                self.ymd().2 as int,
            ),
    {
        proof {
            use_type_invariant(self);
        }
        chrono_format_date(self.year, self.month, self.day)
    }

    /// Whether `self` is a strictly earlier day than `other`.
    pub open spec fn before(self, other: PostDate) -> bool {
        let (y1, m1, d1) = self.ymd();
        let (y2, m2, d2) = other.ymd();
        y1 < y2 || (y1 == y2 && (m1 < m2 || (m1 == m2 && d1 < d2)))
    }

    /// Whether `self` is a strictly earlier day than `other`.
    pub fn is_before(&self, other: &PostDate) -> (r: bool)
        ensures
            r == self.before(*other),
            r <==> (other.ymd().0 > self.ymd().0 || (other.ymd().0 == self.ymd().0 && other.ymd().1
                > self.ymd().1) || (other.ymd().0 == self.ymd().0 && other.ymd().1 == self.ymd().1
                && other.ymd().2 > self.ymd().2)),
    {
        self.year < other.year || (self.year == other.year && (self.month < other.month || (
        self.month == other.month && self.day < other.day)))
    }
}

/// A post: what its front matter says, its Markdown body, and where it is read from and
/// written to.
#[derive(Debug)]
pub struct Post {
    pub title: String,
    pub date: PostDate,
    pub slug: String,
    pub tags: Vec<String>,
    pub status: Status,
    pub body: String,
    pub html: String,
    pub source_path: String,
    pub output_path: String,
    pub url: String,
}

/// A source file split into its front matter and its body.
#[derive(Debug)]
pub struct Parsed {
    pub frontmatter: String,
    pub body: String,
}

/// The fields of a post's front matter.
#[derive(Debug)]
pub struct PostFrontmatter {
    pub title: String,
    pub date: String,
    pub slug: String,
    pub tags: Vec<String>,
    pub status: Status,
}

/// The byte-order mark that a source file may start with.
pub open spec fn bom() -> char {
    '\u{feff}'
}

/// `s` without one leading byte-order mark.
pub open spec fn without_bom(s: Seq<char>) -> Seq<char> {
    if s.len() > 0 && s[0] == bom() {
        s.drop_first()
    } else {
        s
    }
}

/// The line that opens the front matter.
pub open spec fn opening_delimiter() -> Seq<char> {
    "---\n"@
}

/// The line that closes the front matter, with the line break before it.
pub open spec fn closing_delimiter() -> Seq<char> {
    "\n---\n"@
}

/// How a source file splits: no opening delimiter, no closing one, or front matter and body.
pub enum SourceSplit {
    NoOpening,
    NoClosing,
    Split { frontmatter: Seq<char>, body: Seq<char> },
}

/// How `raw` splits: after one leading byte-order mark is dropped, it must start with
/// `---\n`; the front matter runs from there to the first `\n---\n`, the body after it.
#[verifier::opaque]
pub open spec fn split_source(raw: Seq<char>) -> SourceSplit {
    let t = without_bom(raw);
    if !starts_with_seq(t, opening_delimiter()) {
        SourceSplit::NoOpening
    } else {
        let rest = t.skip(opening_delimiter().len() as int);
        match first_occurrence(rest, closing_delimiter()) {
            None => SourceSplit::NoClosing,
            Some(i) => SourceSplit::Split {
                frontmatter: rest.take(i),
                body: rest.skip(i + closing_delimiter().len()),
            },
        }
    }
}

/// `split_source` by cases on the opening delimiter.
pub proof fn lemma_split_source(raw: Seq<char>)
    ensures
        !starts_with_seq(without_bom(raw), opening_delimiter()) ==> split_source(raw) is NoOpening,
        starts_with_seq(without_bom(raw), opening_delimiter()) ==> split_source(raw) == match first_occurrence(
            without_bom(raw).skip(opening_delimiter().len() as int),
            closing_delimiter(),
        ) {
            None => SourceSplit::NoClosing,
            Some(i) => SourceSplit::Split {
                frontmatter: without_bom(raw).skip(opening_delimiter().len() as int).take(i),
                body: without_bom(raw).skip(opening_delimiter().len() as int).skip(
                    i + closing_delimiter().len(),
                ),
            },
        },
{
    reveal(split_source);
}

/// A file made of the opening delimiter, front matter, the closing delimiter and a body splits
/// back into that front matter and body, provided the closing delimiter does not occur in
/// `frontmatter + "\n---\n"` before the one that was added.
pub proof fn lemma_split_source_roundtrip(frontmatter: Seq<char>, body: Seq<char>)
    requires
        first_occurrence(frontmatter + closing_delimiter(), closing_delimiter()) == Some(
            frontmatter.len() as int,
        ),
    ensures
        split_source(opening_delimiter() + frontmatter + closing_delimiter() + body)
            == (SourceSplit::Split { frontmatter, body }),
{
    reveal_strlit("---\n");
    reveal_strlit("\n---\n");
    let o = opening_delimiter();
    let c = closing_delimiter();
    let raw = o + frontmatter + c + body;
    assert(raw[0] == '-');
    assert(without_bom(raw) == raw);
    assert(raw.subrange(0, o.len() as int) =~= o);
    lemma_split_source(raw);
    let rest = raw.skip(o.len() as int);
    assert(rest =~= frontmatter + c + body);
    let n = frontmatter.len() as int;
    lemma_first_occurrence_props(frontmatter + c, c);
    assert(rest.subrange(n, n + c.len()) =~= c);
    assert forall|j: int| 0 <= j < n implies !occurs_at(rest, c, j) by {
        assert(!occurs_at(frontmatter + c, c, j));
        assert(rest.subrange(j, j + c.len()) =~= (frontmatter + c).subrange(j, j + c.len()));
    }
    lemma_first_occurrence(rest, c, n);
    assert(rest.take(n) =~= frontmatter);
    assert(rest.skip(n + c.len()) =~= body);
}

/// `content` with every `\r\n` turned into `\n`.
pub fn normalize_line_endings(content: &str) -> (r: String)
    ensures
        r@ == replace_all_spec(content@, "\r\n"@, "\n"@),
{
    proof {
        reveal_strlit("\r\n");
    }
    replace_all(content, "\r\n", "\n")
}

fn drop_bom(v: &Vec<char>) -> (r: Vec<char>)
    ensures
        r@ == without_bom(v@),
{
    let start: usize = if v.len() > 0 && v[0] == '\u{feff}' { 1 } else { 0 };
    let r = chars_of(string_from_range(v, start, v.len()).as_str());
    assert(r@ =~= without_bom(v@));
    r
}

fn drop_prefix(v: &Vec<char>, n: usize) -> (r: Vec<char>)
    requires
        n <= v.len(),
    ensures
        r@ == v@.skip(n as int),
{
    let r = chars_of(string_from_range(v, n, v.len()).as_str());
    assert(r@ =~= v@.skip(n as int));
    r
}

/// Splits a source file into front matter and body, or reports which delimiter is missing.
pub fn parse_post_file(raw_file: &str, source_path: &str) -> (r: Result<Parsed, BuildError>)
    ensures
        match split_source(raw_file@) {
            SourceSplit::NoOpening => r matches Err(BuildError::MissingOpeningFrontmatter { path })
                && path@ == source_path@,
            SourceSplit::NoClosing => r matches Err(BuildError::MissingClosingFrontmatter { path })
                && path@ == source_path@,
            SourceSplit::Split { frontmatter, body } => r matches Ok(p) && p.frontmatter@
                == frontmatter && p.body@ == body,
        },
{
    let v = chars_of(raw_file);
    let tv = drop_bom(&v);
    let opening = chars_of("---\n");
    let closing = chars_of("\n---\n");
    proof {
        lemma_split_source(raw_file@);
    }
    if !matches_at(&tv, &opening, 0) {
        return Err(BuildError::MissingOpeningFrontmatter { path: String::from_str(source_path) });
    }
    let rest = drop_prefix(&tv, opening.len());
    match find_first(&rest, &closing) {
        None => Err(BuildError::MissingClosingFrontmatter { path: String::from_str(source_path) }),
        Some(i) => {
            let frontmatter = string_from_range(&rest, 0, i);
            let body = string_from_range(&rest, i + closing.len(), rest.len());
            assert(frontmatter@ =~= rest@.take(i as int));
            assert(body@ =~= rest@.skip(i + closing@.len()));
            Ok(Parsed { frontmatter, body })
        },
    }
}

/// The address a post gets from its slug before routes are applied: `/{slug}/`.
pub open spec fn slug_url(slug: Seq<char>) -> Seq<char> {
    "/"@ + slug + "/"@
}

/// The post that the front matter and body describe, given what the date parser made of the
/// front matter's date.
pub fn post_from_parts(
    frontmatter: PostFrontmatter,
    body: String,
    source_path: &str,
    date: Result<PostDate, chrono::ParseError>,
) -> (r: Result<Post, BuildError>)
    ensures
        match date {
            Err(e) => r matches Err(BuildError::ParseDate { path, date: d, source }) && path@
                == source_path@ && d@ == frontmatter.date@ && source == e,
            Ok(d) => r matches Ok(p) && {
                &&& p.title@ == frontmatter.title@
                &&& p.date == d
                &&& p.slug@ == frontmatter.slug@
                &&& p.tags@ == frontmatter.tags@
                &&& p.status == frontmatter.status
                &&& p.body@ == body@
                &&& p.html@ == Seq::<char>::empty()
                &&& p.source_path@ == source_path@
                &&& p.output_path@ == Seq::<char>::empty()
                &&& p.url@ == slug_url(frontmatter.slug@)
            },
        },
{
    match date {
        Err(e) => Err(
            BuildError::ParseDate {
                path: String::from_str(source_path),
                date: frontmatter.date,
                source: e,
            },
        ),
        Ok(d) => {
            let mut url = String::from_str("/");
            url.append(frontmatter.slug.as_str());
            url.append("/");
            Ok(
                Post {
                    title: frontmatter.title,
                    date: d,
                    slug: frontmatter.slug,
                    tags: frontmatter.tags,
                    status: frontmatter.status,
                    body,
                    html: String::new(),
                    source_path: String::from_str(source_path),
                    output_path: String::new(),
                    url,
                },
            )
        },
    }
}

/// The post that parsed front matter and a split source file describe; its date is read with
/// `%Y-%m-%d`.
pub fn post_from_parsed_file(frontmatter: PostFrontmatter, parsed_file: Parsed, source_path: &str) -> (r:
    Result<Post, BuildError>)
    ensures
        chrono_parsed_ymd(frontmatter.date@) is None ==> (r matches Err(
            BuildError::ParseDate { path, date, .. },
        ) && path@ == source_path@ && date@ == frontmatter.date@),
        chrono_parsed_ymd(frontmatter.date@) matches Some(t) ==> (r matches Ok(p) && {
            &&& p.title@ == frontmatter.title@
            &&& p.date.ymd() == t
            &&& p.slug@ == frontmatter.slug@
            &&& p.tags@ == frontmatter.tags@
            &&& p.status == frontmatter.status
            &&& p.body@ == parsed_file.body@
            &&& p.html@ == Seq::<char>::empty()
            &&& p.source_path@ == source_path@
            &&& p.output_path@ == Seq::<char>::empty()
            &&& p.url@ == slug_url(frontmatter.slug@)
        }),
{
    let date = PostDate::parse(frontmatter.date.as_str());
    post_from_parts(frontmatter, parsed_file.body, source_path, date)
}

/// The extension of a post's source file.
pub open spec fn markdown_extension() -> Seq<char> {
    "md"@
}

/// Whether a file with this extension is a post's source.
pub fn is_markdown_extension(extension: Option<&str>) -> (r: bool)
    ensures
        r == (extension matches Some(e) && e@ == markdown_extension()),
{
    match extension {
        Some(e) => str_eq(e, "md"),
        None => false,
    }
}

/// Whether the file at `path` is a post's source: its extension is `md`.
pub fn is_markdown_file(path: &str) -> (r: bool)
    ensures
        r == (path_extension_of(path@) == Some(markdown_extension())),
{
    match path_extension(path) {
        Some(e) => is_markdown_extension(Some(e.as_str())),
        None => is_markdown_extension(None),
    }
}

} // verus!
