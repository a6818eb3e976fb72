# twitter_tui

A terminal client for X: it logs in through OAuth, shows the home timeline,
and lets the user like, retweet, open and write posts.

- `src/` is the verified library: the state machine of the client
  (`state/`), the key handling of its views (`keys.rs`, `startup/`, `modes/`),
  the text and styles it draws (`ui/`, `modes/`, `utils/palette.rs`), the
  requests it sends to the X API and how their answers become posts
  (`api/twitter/`), and the OAuth callback handling (`api/local/`,
  `api/auth/`). `collector/` holds the timeline collector's views.
- `app/` is the program around it: terminal drawing with ratatui, key reading
  with crossterm, HTTP with reqwest, the OAuth flow with oauth2, and the
  callback listener with tiny_http.
- `tests/` runs the library on concrete values.
