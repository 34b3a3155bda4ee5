# cable

A static blog generator: Markdown posts with YAML front matter and a TOML
configuration become plain HTML pages, tag pages, a sitemap and an RSS feed.

- `src/` is the library, verified with Verus: splitting a source file into
  front matter and body, slugs, routes and output paths, tag grouping, the
  newest-first order of published posts, HTML rendering with escaping, the
  feed, the site checks (slugs, duplicate slugs, local links, routes), the
  error messages, and the development server's decisions.
- `app/` is the command line program (`build`, `validate`, `dev`): it reads
  and writes files, parses TOML and YAML with serde, serves HTTP and watches
  the site for changes, and calls the library for everything it decides.
- `tests/` exercises the library on concrete sites and posts.
