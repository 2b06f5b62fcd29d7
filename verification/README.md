# reddit

A client library for the Reddit API, verified with Verus. The library does
no I/O: it builds the requests that the API expects, parses the text of the
replies (with serde_json, behind a trusted wrapper) and takes them up.

- `src/` — the verified library:
  - `json` — JSON values, parsing (through serde_json), member lookups and
    the compact encoding;
  - `post` — the orders and time spans of listings, and which combinations
    the site accepts;
  - `subreddit`, `redditor` — the addresses of descriptions and listings;
  - `session` — sessions: logging in, asking who the user is, ending the
    other sessions, and what the replies do to a session;
  - `objects` — what the site's objects have in common, and the data of a
    listing's children;
  - `util` — requests, error lists in replies, votes, the secrets file;
  - `text` — white space, spaces and trimming.
- `app/` — the program: sends the requests over HTTP, decodes posts, subreddits, users and comments (which hold floating-point
  times), and prints the top posts of /r/programming.
- `tests/` — tests of the library on concrete values.

`Cargo.toml` names `serde_json`, the JSON parser that `src/json.rs` calls
and `app/` decodes with; `serde`, for the program's decoding; and `ureq`,
the HTTP client of the program.
