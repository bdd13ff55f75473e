# bex_auth

Sign-in against the bex identity provider with the OAuth 2.0 Device Authorization Grant, and the
GitHub Actions workflow that releases bex. The logic is written and proved in
[Verus](https://github.com/verus-lang/verus).

- `src/` is the library. `sign_in` and `token_check` are state machines: they take what the host
  reports and say what it has to do next. Around them stand the configuration (`config`, `issuer`),
  the requests (`http`, `form`, `discovery`, `device`), the user id (`identity`) and the failures
  (`error`). `release` builds the release workflow out of the calls that `actions` describes.
  `sign_in_laws` and `release_laws` state what holds of a whole sign-in and of the whole workflow.
- `app/` is the host: it reads the environment, sends requests, parses the provider's documents and
  waits.
- `tests/` runs the library with the crates that it calls.

The library calls `url`, `base64`, `serde_json`, `sha2` and `gh_workflow`. Each call stands behind a
small function marked `external_body`, whose doc comment says what is taken for granted of it.
Where the result takes more than a few lines to state, it has a name (`url_parse`, `base64_decode`,
`json_parse`, `json_members`, `sha256`), and a second function takes the result as an argument.
