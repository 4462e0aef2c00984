# reddit-dl

A bulk Reddit downloader with incremental sync: it walks the posts of the
configured sources (friends, followed users, saved posts, subreddits, users),
skips posts it has already stored, and saves each post's media (images,
galleries, Reddit videos, Imgur and RedGifs links, self-post text) under one
directory per source.

## Layout

- `src/` is the library, verified with Verus. Every decision of the program
  stands there with a contract: how a post's media type is resolved, where each
  file goes and how its name is sanitized, which HTTP statuses are retried and
  how long to wait, when the API token is refreshed, how listings are paged and
  cut at the sync cursor, what the `status` command prints.
  - `api/` requests, retry and rate-limit decisions, token handling
  - `download/` media resolution, download plans, size limits, Imgur, RedGifs
  - `sources/` the kinds of sources and their paging
  - `storage/` output paths, file names and the status report
  - `sync.rs` where each source's fetch stops, which posts are downloaded, and
    the cursor a batch leaves
  - `text.rs`, `paths.rs`, `time.rs` string, path and clock helpers
- `app/` is the program around it: the command line, HTTP, the SQLite
  database, the file system, progress bars and logging. It performs what the
  library decides.
- `tests/` runs the library on concrete values.
