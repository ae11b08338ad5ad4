# pinepods_web

The client-side logic of the Pinepods web front end, verified with Verus.

- `src/` is the verified library: the requests the front end sends to a
  Pinepods server and what it makes of each reply (`endpoints`, `http`,
  `models`), the multi-step login to a new server (`login`), the rule that
  sends a visitor who is not signed in back to the login page (`session`), the
  Fluent message catalogue (`i18n`), HTTP Basic credentials (`encoding`), text
  utilities (`text`) and the media plugin's ping (`media`).
- `app/` runs the library in the browser: it performs the HTTP requests with
  `gloo-net`, reads and writes JSON with `serde`, uses the session storage and
  history, reads FTL files, and provides the yew hooks.
- `tests/` exercises the library on concrete values.
