use cable::errors::BuildError;
use std::io;

#[test]
fn display_includes_context_for_duplicate_slug() {
    let error = BuildError::DuplicateSlug {
        slug: String::from("hello"),
        first_path: String::from("content/posts/hello.md"),
        second_path: String::from("content/posts/other.md"),
    };

    let message = error.message();

    assert!(message.contains("duplicate slug 'hello'"));
    assert!(message.contains("content/posts/hello.md"));
    assert!(message.contains("content/posts/other.md"));
}

#[test]
fn source_returns_underlying_io_error() {
    let error = BuildError::ReadFile {
        path: String::from("missing.md"),
        source: io::Error::new(io::ErrorKind::NotFound, "missing"),
    };

    assert!(error.has_source());
}

#[test]
fn messages_of_each_kind() {
    assert_eq!(
        BuildError::MissingRouteSlug { route: String::from("/posts/") }.message(),
        "post route must contain :slug: /posts/"
    );
    assert_eq!(
        BuildError::InvalidSlug { path: String::from("a.md"), slug: String::from("Bad") }.message(),
        "invalid slug 'Bad' in a.md"
    );
    assert_eq!(
        BuildError::BrokenMarkdownLink {
            path: String::from("a.md"),
            link: String::from("b.md"),
            target: String::from("posts/b.md"),
        }
        .message(),
        "broken local Markdown link 'b.md' in a.md points to posts/b.md"
    );
    assert_eq!(
        BuildError::SourceOutsidePostsDirectory {
            posts_dir: String::from("content/posts"),
            source_path: String::from("other/a.md"),
        }
        .message(),
        "post source path other/a.md is not inside posts directory content/posts"
    );
    assert_eq!(
        BuildError::CopyFile {
            source_path: String::from("a"),
            destination_path: String::from("b"),
            source: io::Error::new(io::ErrorKind::Other, "x"),
        }
        .message(),
        "could not copy file from a to b"
    );
    assert!(!BuildError::MissingConfigFile { path: String::from("blog.toml") }.has_source());
    assert_eq!(
        BuildError::MissingConfigFile { path: String::from("blog.toml") }.message(),
        "missing config file: blog.toml"
    );
}

#[test]
fn message_shows_fields_and_not_the_wrapped_error() {
    let a = BuildError::ReadFile {
        path: String::from("posts/a.md"),
        source: io::Error::new(io::ErrorKind::NotFound, "secret detail"),
    };
    let b = BuildError::ReadFile {
        path: String::from("posts/a.md"),
        source: io::Error::new(io::ErrorKind::Other, "other detail"),
    };
    assert_eq!(a.message(), b.message());
    assert!(a.message().contains("posts/a.md"));
    assert!(!a.message().contains("secret detail"));
}
