# aurl_rust

An HTTP client that obtains an OAuth2 access token for a named profile and
sends a request with it (or prints the request as a curl command).

- `src/` is the verified library (Verus): profile parsing, token requests,
  header assembly, custom authorization headers, curl rendering, redirect
  decisions, the authorization-code callback, and the dispatch state
  machine with its laws.
- `app/` is the command-line program: option parsing, logging, the token
  cache files, and the network calls, driven by the library's decisions.
- `tests/` exercises the library on concrete values.
