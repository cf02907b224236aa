# s2_login

Browser login for the S2 command line: OAuth 2.0 with PKCE, stored credentials and
their cleanup, and the choice of the credential of a command.

- `src/` is the library, verified with Verus. It decides; it never acts. Each flow
  (`login`, `logout`, `fresh`, `provider`, `resolve`, and the parts that they share,
  `cleanup`, `prepare` and `rollback`) is a state machine: `request` says what is to be
  done next, `advance` goes on with the reply, and `leads_to` is the contract of
  `advance`. Proof functions whose names begin with `law_` state what holds of the
  library as a whole.
- `app/` carries the flows out: files, locks, HTTP, the callback server, the browser and
  the terminal.
- `tests/` runs the library.

## What is not proved

URL parsing, SHA-256, Base64, random numbers, HTTP status texts, quoted texts and the
wiping of secrets come from other crates or from std. Most of their results are named in
contracts, not stated; the doc comment of each such function says what is claimed of it.
`encoding`, `url`, `error`, `provider`, `token` and `text` hold them.
