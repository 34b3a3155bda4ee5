//! The error type of every fallible step of a build, and its message text.
use vstd::prelude::*;
use crate::text::{contains_seq, occurs_at};

verus! {

/// `std::io::Error`, carried through unread.
#[verifier::external_type_specification]
#[verifier::external_body]
pub struct ExIoError(std::io::Error);

/// `toml::de::Error`, carried through unread.
#[verifier::external_type_specification]
#[verifier::external_body]
pub struct ExTomlError(toml::de::Error);

/// `serde_yaml::Error`, carried through unread.
#[verifier::external_type_specification]
#[verifier::external_body]
pub struct ExYamlError(serde_yaml::Error);

/// `chrono::ParseError`, carried through unread.
#[verifier::external_type_specification]
#[verifier::external_body]
pub struct ExDateParseError(chrono::ParseError);

/// What went wrong, with the paths (as text) and values that locate it.
#[derive(Debug)]
pub enum BuildError {
    CheckPathExists { path: String, source: std::io::Error },
    CleanDirectory { path: String, source: std::io::Error },
    CreateDirectory { path: String, source: std::io::Error },
    ReadDirectory { path: String, source: std::io::Error },
    ReadDirectoryEntry { directory: String, source: std::io::Error },
    ReadFile { path: String, source: std::io::Error },
    WriteFile { path: String, source: std::io::Error },
    CopyFile { source_path: String, destination_path: String, source: std::io::Error },
    ParseConfig { path: String, source: toml::de::Error },
    MissingOpeningFrontmatter { path: String },
    MissingClosingFrontmatter { path: String },
    ParseFrontmatter { path: String, source: serde_yaml::Error },
    ParseDate { path: String, date: String, source: chrono::ParseError },
    MissingConfigFile { path: String },
    MissingPostsDirectory { path: String },
    InvalidSlug { path: String, slug: String },
    BrokenMarkdownLink { path: String, link: String, target: String },
    MissingRouteSlug { route: String },
    SourceOutsidePostsDirectory { posts_dir: String, source_path: String },
    DuplicateSlug { slug: String, first_path: String, second_path: String },
}

impl BuildError {
    /// The human-readable message of the error.
    pub open spec fn message_spec(&self) -> Seq<char> {
        match self {
            BuildError::CheckPathExists { path, .. } => "could not check whether path exists: "@ + path@,
            BuildError::CleanDirectory { path, .. } => "could not clean directory: "@ + path@,
            BuildError::CreateDirectory { path, .. } => "could not create directory: "@ + path@,
            BuildError::ReadDirectory { path, .. } => "could not read directory: "@ + path@,
            BuildError::ReadDirectoryEntry { directory, .. } => "could not read an entry in directory: "@
                + directory@,
            BuildError::ReadFile { path, .. } => "could not read file: "@ + path@,
            BuildError::WriteFile { path, .. } => "could not write file: "@ + path@,
            BuildError::CopyFile { source_path, destination_path, .. } => "could not copy file from "@
                + source_path@ + " to "@ + destination_path@,
            BuildError::ParseConfig { path, .. } => "could not parse config file: "@ + path@,
            BuildError::MissingOpeningFrontmatter { path } => "missing opening frontmatter delimiter in "@
                + path@,
            BuildError::MissingClosingFrontmatter { path } => "missing closing frontmatter delimiter in "@
                + path@,
            BuildError::ParseFrontmatter { path, .. } => "could not parse YAML frontmatter in "@ + path@,
            BuildError::ParseDate { path, date, .. } => "could not parse date '"@ + date@ + "' in "@ + path@,
            BuildError::MissingConfigFile { path } => "missing config file: "@ + path@,
            BuildError::MissingPostsDirectory { path } => "missing posts directory: "@ + path@,
            BuildError::InvalidSlug { path, slug } => "invalid slug '"@ + slug@ + "' in "@ + path@,
            BuildError::BrokenMarkdownLink { path, link, target } => "broken local Markdown link '"@
                + link@ + "' in "@ + path@ + " points to "@ + target@,
            BuildError::MissingRouteSlug { route } => "post route must contain :slug: "@ + route@,
            BuildError::SourceOutsidePostsDirectory { posts_dir, source_path } => "post source path "@
                + source_path@ + " is not inside posts directory "@ + posts_dir@,
            BuildError::DuplicateSlug { slug, first_path, second_path } => "duplicate slug '"@ + slug@
                + "' found in "@ + first_path@ + " and "@ + second_path@,
        }
    }

    /// Whether the error wraps an underlying error from I/O or from a parser.
    pub open spec fn has_source_spec(&self) -> bool {
        match self {
            BuildError::CheckPathExists { .. }
            | BuildError::CleanDirectory { .. }
            | BuildError::CreateDirectory { .. }
            | BuildError::ReadDirectory { .. }
            | BuildError::ReadDirectoryEntry { .. }
            | BuildError::ReadFile { .. }
            | BuildError::WriteFile { .. }
            | BuildError::CopyFile { .. }
            | BuildError::ParseConfig { .. }
            | BuildError::ParseFrontmatter { .. }
            | BuildError::ParseDate { .. } => true,
            _ => false,
        }
    }

    /// The text fields of the error, in the order its message shows them.
    pub open spec fn fields_spec(&self) -> Seq<Seq<char>> {
        match self {
            BuildError::CheckPathExists { path, .. } => seq![path@],
            BuildError::CleanDirectory { path, .. } => seq![path@],
            BuildError::CreateDirectory { path, .. } => seq![path@],
            BuildError::ReadDirectory { path, .. } => seq![path@],
            BuildError::ReadDirectoryEntry { directory, .. } => seq![directory@],
            BuildError::ReadFile { path, .. } => seq![path@],
            BuildError::WriteFile { path, .. } => seq![path@],
            BuildError::CopyFile { source_path, destination_path, .. } => seq![source_path@, destination_path@],
            BuildError::ParseConfig { path, .. } => seq![path@],
            BuildError::MissingOpeningFrontmatter { path } => seq![path@],
            BuildError::MissingClosingFrontmatter { path } => seq![path@],
            BuildError::ParseFrontmatter { path, .. } => seq![path@],
            BuildError::ParseDate { date, path, .. } => seq![date@, path@],
            BuildError::MissingConfigFile { path } => seq![path@],
            BuildError::MissingPostsDirectory { path } => seq![path@],
            BuildError::InvalidSlug { slug, path } => seq![slug@, path@],
            BuildError::BrokenMarkdownLink { link, path, target } => seq![link@, path@, target@],
            BuildError::MissingRouteSlug { route } => seq![route@],
            BuildError::SourceOutsidePostsDirectory { source_path, posts_dir } => seq![source_path@, posts_dir@],
            BuildError::DuplicateSlug { slug, first_path, second_path } => seq![slug@, first_path@, second_path@],
        }
    }

    /// Which kind of error this is, as a number.
    pub open spec fn kind_spec(&self) -> int {
        match self {
            BuildError::CheckPathExists { .. } => 0,
            BuildError::CleanDirectory { .. } => 1,
            BuildError::CreateDirectory { .. } => 2,
            BuildError::ReadDirectory { .. } => 3,
            BuildError::ReadDirectoryEntry { .. } => 4,
            BuildError::ReadFile { .. } => 5,
            BuildError::WriteFile { .. } => 6,
            BuildError::CopyFile { .. } => 7,
            BuildError::ParseConfig { .. } => 8,
            BuildError::MissingOpeningFrontmatter { .. } => 9,
            BuildError::MissingClosingFrontmatter { .. } => 10,
            BuildError::ParseFrontmatter { .. } => 11,
            BuildError::ParseDate { .. } => 12,
            BuildError::MissingConfigFile { .. } => 13,
            BuildError::MissingPostsDirectory { .. } => 14,
            BuildError::InvalidSlug { .. } => 15,
            BuildError::BrokenMarkdownLink { .. } => 16,
            BuildError::MissingRouteSlug { .. } => 17,
            BuildError::SourceOutsidePostsDirectory { .. } => 18,
            BuildError::DuplicateSlug { .. } => 19,
        }
    }

    /// The message of an error shows every text field of the error.
    pub proof fn lemma_message_shows_fields(&self)
        ensures
            forall|i: int| 0 <= i < self.fields_spec().len() ==> contains_seq(self.message_spec(), #[trigger] self.fields_spec()[i]),
    {
        match self {
            BuildError::CheckPathExists { path, .. } => {
                assert("could not check whether path exists: "@ + path@ =~= ("could not check whether path exists: "@) + path@ + Seq::<char>::empty());
                lemma_contains_middle(("could not check whether path exists: "@), path@, Seq::<char>::empty());
            },
            BuildError::CleanDirectory { path, .. } => {
                assert("could not clean directory: "@ + path@ =~= ("could not clean directory: "@) + path@ + Seq::<char>::empty());
                lemma_contains_middle(("could not clean directory: "@), path@, Seq::<char>::empty());
            },
            BuildError::CreateDirectory { path, .. } => {
                assert("could not create directory: "@ + path@ =~= ("could not create directory: "@) + path@ + Seq::<char>::empty());
                lemma_contains_middle(("could not create directory: "@), path@, Seq::<char>::empty());
            },
            BuildError::ReadDirectory { path, .. } => {
                assert("could not read directory: "@ + path@ =~= ("could not read directory: "@) + path@ + Seq::<char>::empty());
                lemma_contains_middle(("could not read directory: "@), path@, Seq::<char>::empty());
            },
            BuildError::ReadDirectoryEntry { directory, .. } => {
                assert("could not read an entry in directory: "@ + directory@ =~= ("could not read an entry in directory: "@) + directory@ + Seq::<char>::empty());
                lemma_contains_middle(("could not read an entry in directory: "@), directory@, Seq::<char>::empty());
            },
            BuildError::ReadFile { path, .. } => {
                assert("could not read file: "@ + path@ =~= ("could not read file: "@) + path@ + Seq::<char>::empty());
                lemma_contains_middle(("could not read file: "@), path@, Seq::<char>::empty());
            },
            BuildError::WriteFile { path, .. } => {
                assert("could not write file: "@ + path@ =~= ("could not write file: "@) + path@ + Seq::<char>::empty());
                lemma_contains_middle(("could not write file: "@), path@, Seq::<char>::empty());
            },
            BuildError::CopyFile { source_path, destination_path, .. } => {
                assert("could not copy file from "@ + source_path@ + " to "@ + destination_path@ =~= ("could not copy file from "@) + source_path@ + (" to "@ + destination_path@));
                lemma_contains_middle(("could not copy file from "@), source_path@, (" to "@ + destination_path@));
                assert("could not copy file from "@ + source_path@ + " to "@ + destination_path@ =~= ("could not copy file from "@ + source_path@ + " to "@) + destination_path@ + Seq::<char>::empty());
                lemma_contains_middle(("could not copy file from "@ + source_path@ + " to "@), destination_path@, Seq::<char>::empty());
            },
            BuildError::ParseConfig { path, .. } => {
                assert("could not parse config file: "@ + path@ =~= ("could not parse config file: "@) + path@ + Seq::<char>::empty());
                lemma_contains_middle(("could not parse config file: "@), path@, Seq::<char>::empty());
            },
            BuildError::MissingOpeningFrontmatter { path } => {
                assert("missing opening frontmatter delimiter in "@ + path@ =~= ("missing opening frontmatter delimiter in "@) + path@ + Seq::<char>::empty());
                lemma_contains_middle(("missing opening frontmatter delimiter in "@), path@, Seq::<char>::empty());
            },
            BuildError::MissingClosingFrontmatter { path } => {
                assert("missing closing frontmatter delimiter in "@ + path@ =~= ("missing closing frontmatter delimiter in "@) + path@ + Seq::<char>::empty());
                lemma_contains_middle(("missing closing frontmatter delimiter in "@), path@, Seq::<char>::empty());
            },
            BuildError::ParseFrontmatter { path, .. } => {
                assert("could not parse YAML frontmatter in "@ + path@ =~= ("could not parse YAML frontmatter in "@) + path@ + Seq::<char>::empty());
                lemma_contains_middle(("could not parse YAML frontmatter in "@), path@, Seq::<char>::empty());
            },
            BuildError::ParseDate { date, path, .. } => {
                assert("could not parse date '"@ + date@ + "' in "@ + path@ =~= ("could not parse date '"@) + date@ + ("' in "@ + path@));
                lemma_contains_middle(("could not parse date '"@), date@, ("' in "@ + path@));
                assert("could not parse date '"@ + date@ + "' in "@ + path@ =~= ("could not parse date '"@ + date@ + "' in "@) + path@ + Seq::<char>::empty());
                lemma_contains_middle(("could not parse date '"@ + date@ + "' in "@), path@, Seq::<char>::empty());
            },
            BuildError::MissingConfigFile { path } => {
                assert("missing config file: "@ + path@ =~= ("missing config file: "@) + path@ + Seq::<char>::empty());
                lemma_contains_middle(("missing config file: "@), path@, Seq::<char>::empty());
            },
            BuildError::MissingPostsDirectory { path } => {
                assert("missing posts directory: "@ + path@ =~= ("missing posts directory: "@) + path@ + Seq::<char>::empty());
                lemma_contains_middle(("missing posts directory: "@), path@, Seq::<char>::empty());
            },
            BuildError::InvalidSlug { slug, path } => {
                assert("invalid slug '"@ + slug@ + "' in "@ + path@ =~= ("invalid slug '"@) + slug@ + ("' in "@ + path@));
                lemma_contains_middle(("invalid slug '"@), slug@, ("' in "@ + path@));
                assert("invalid slug '"@ + slug@ + "' in "@ + path@ =~= ("invalid slug '"@ + slug@ + "' in "@) + path@ + Seq::<char>::empty());
                lemma_contains_middle(("invalid slug '"@ + slug@ + "' in "@), path@, Seq::<char>::empty());
            },
            BuildError::BrokenMarkdownLink { link, path, target } => {
                assert("broken local Markdown link '"@ + link@ + "' in "@ + path@ + " points to "@ + target@ =~= ("broken local Markdown link '"@) + link@ + ("' in "@ + path@ + " points to "@ + target@));
                lemma_contains_middle(("broken local Markdown link '"@), link@, ("' in "@ + path@ + " points to "@ + target@));
                assert("broken local Markdown link '"@ + link@ + "' in "@ + path@ + " points to "@ + target@ =~= ("broken local Markdown link '"@ + link@ + "' in "@) + path@ + (" points to "@ + target@));
                lemma_contains_middle(("broken local Markdown link '"@ + link@ + "' in "@), path@, (" points to "@ + target@));
                assert("broken local Markdown link '"@ + link@ + "' in "@ + path@ + " points to "@ + target@ =~= ("broken local Markdown link '"@ + link@ + "' in "@ + path@ + " points to "@) + target@ + Seq::<char>::empty());
                lemma_contains_middle(("broken local Markdown link '"@ + link@ + "' in "@ + path@ + " points to "@), target@, Seq::<char>::empty());
            },
            BuildError::MissingRouteSlug { route } => {
                assert("post route must contain :slug: "@ + route@ =~= ("post route must contain :slug: "@) + route@ + Seq::<char>::empty());
                lemma_contains_middle(("post route must contain :slug: "@), route@, Seq::<char>::empty());
            },
            BuildError::SourceOutsidePostsDirectory { source_path, posts_dir } => {
                assert("post source path "@ + source_path@ + " is not inside posts directory "@ + posts_dir@ =~= ("post source path "@) + source_path@ + (" is not inside posts directory "@ + posts_dir@));
                lemma_contains_middle(("post source path "@), source_path@, (" is not inside posts directory "@ + posts_dir@));
                assert("post source path "@ + source_path@ + " is not inside posts directory "@ + posts_dir@ =~= ("post source path "@ + source_path@ + " is not inside posts directory "@) + posts_dir@ + Seq::<char>::empty());
                lemma_contains_middle(("post source path "@ + source_path@ + " is not inside posts directory "@), posts_dir@, Seq::<char>::empty());
            },
            BuildError::DuplicateSlug { slug, first_path, second_path } => {
                assert("duplicate slug '"@ + slug@ + "' found in "@ + first_path@ + " and "@ + second_path@ =~= ("duplicate slug '"@) + slug@ + ("' found in "@ + first_path@ + " and "@ + second_path@));
                lemma_contains_middle(("duplicate slug '"@), slug@, ("' found in "@ + first_path@ + " and "@ + second_path@));
                assert("duplicate slug '"@ + slug@ + "' found in "@ + first_path@ + " and "@ + second_path@ =~= ("duplicate slug '"@ + slug@ + "' found in "@) + first_path@ + (" and "@ + second_path@));
                lemma_contains_middle(("duplicate slug '"@ + slug@ + "' found in "@), first_path@, (" and "@ + second_path@));
                assert("duplicate slug '"@ + slug@ + "' found in "@ + first_path@ + " and "@ + second_path@ =~= ("duplicate slug '"@ + slug@ + "' found in "@ + first_path@ + " and "@) + second_path@ + Seq::<char>::empty());
                lemma_contains_middle(("duplicate slug '"@ + slug@ + "' found in "@ + first_path@ + " and "@), second_path@, Seq::<char>::empty());
            },
        }
    }

    /// The message of an error depends on its kind and text fields alone, never on the
    /// underlying error it wraps.
    pub proof fn lemma_message_ignores_source(&self, other: &BuildError)
        requires
            self.kind_spec() == other.kind_spec(),
            self.fields_spec() == other.fields_spec(),
        ensures
            self.message_spec() == other.message_spec(),
    {
        let a = self.fields_spec();
        let b = other.fields_spec();
        assert(a.len() == b.len());
        assert(a.len() > 0 ==> a[0] == b[0]);
        assert(a.len() > 1 ==> a[1] == b[1]);
        assert(a.len() > 2 ==> a[2] == b[2]);
    }

    /// The message shown to the user for this error.
    pub fn message(&self) -> (r: String)
        ensures
            r@ == self.message_spec(),
    {
        match self {
            BuildError::CheckPathExists { path, .. } => join2("could not check whether path exists: ", path),
            BuildError::CleanDirectory { path, .. } => join2("could not clean directory: ", path),
            BuildError::CreateDirectory { path, .. } => join2("could not create directory: ", path),
            BuildError::ReadDirectory { path, .. } => join2("could not read directory: ", path),
            BuildError::ReadDirectoryEntry { directory, .. } => join2(
                "could not read an entry in directory: ",
                directory,
            ),
            BuildError::ReadFile { path, .. } => join2("could not read file: ", path),
            BuildError::WriteFile { path, .. } => join2("could not write file: ", path),
            BuildError::CopyFile { source_path, destination_path, .. } => join4(
                "could not copy file from ",
                source_path,
                " to ",
                destination_path,
            ),
            BuildError::ParseConfig { path, .. } => join2("could not parse config file: ", path),
            BuildError::MissingOpeningFrontmatter { path } => join2(
                "missing opening frontmatter delimiter in ",
                path,
            ),
            BuildError::MissingClosingFrontmatter { path } => join2(
                "missing closing frontmatter delimiter in ",
                path,
            ),
            BuildError::ParseFrontmatter { path, .. } => join2(
                "could not parse YAML frontmatter in ",
                path,
            ),
            BuildError::ParseDate { path, date, .. } => join4(
                "could not parse date '",
                date,
                "' in ",
                path,
            ),
            BuildError::MissingConfigFile { path } => join2("missing config file: ", path),
            BuildError::MissingPostsDirectory { path } => join2("missing posts directory: ", path),
            BuildError::InvalidSlug { path, slug } => join4("invalid slug '", slug, "' in ", path),
            BuildError::BrokenMarkdownLink { path, link, target } => {
                let mut s = join4("broken local Markdown link '", link, "' in ", path);
                s.append(" points to ");
                s.append(target.as_str());
                s
            },
            BuildError::MissingRouteSlug { route } => join2("post route must contain :slug: ", route),
            BuildError::SourceOutsidePostsDirectory { posts_dir, source_path } => join4(
                "post source path ",
                source_path,
                " is not inside posts directory ",
                posts_dir,
            ),
            BuildError::DuplicateSlug { slug, first_path, second_path } => {
                let mut s = join4("duplicate slug '", slug, "' found in ", first_path);
                s.append(" and ");
                s.append(second_path.as_str());
                s
            },
        }
    }

    /// Whether the error wraps an underlying error (what `Error::source` reports as present).
    pub fn has_source(&self) -> (r: bool)
        ensures
            r == self.has_source_spec(),
    {
        match self {
            BuildError::CheckPathExists { .. }
            | BuildError::CleanDirectory { .. }
            | BuildError::CreateDirectory { .. }
            | BuildError::ReadDirectory { .. }
            | BuildError::ReadDirectoryEntry { .. }
            | BuildError::ReadFile { .. }
            | BuildError::WriteFile { .. }
            | BuildError::CopyFile { .. }
            | BuildError::ParseConfig { .. }
            | BuildError::ParseFrontmatter { .. }
            | BuildError::ParseDate { .. } => true,
            _ => false,
        }
    }
}

/// Text in the middle of a concatenation occurs in it.
pub proof fn lemma_contains_middle(a: Seq<char>, b: Seq<char>, c: Seq<char>)
    ensures
        contains_seq(a + b + c, b),
{
    assert((a + b + c).subrange(a.len() as int, (a.len() + b.len()) as int) =~= b);
    assert(occurs_at(a + b + c, b, a.len() as int));
}

fn join2(a: &str, b: &String) -> (r: String)
    ensures
        r@ == a@ + b@,
{
    let mut s = String::from_str(a);
    s.append(b.as_str());
    s
}

fn join4(a: &str, b: &String, c: &str, d: &String) -> (r: String)
    ensures
        r@ == a@ + b@ + c@ + d@,
{
    let mut s = String::from_str(a);
    s.append(b.as_str());
    s.append(c);
    s.append(d.as_str());
    s
}

} // verus!
