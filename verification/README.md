# cnb-cli

A command-line client for the CNB code-hosting API (`cnb user`, `cnb repo`,
`cnb issue`, `cnb pr`, `cnb build`), with its logic verified by Verus.

- `src/` is the verified library:
  - `config`: where the API URL and token come from (command line, then
    file, then default);
  - `paths`, `api`: the path segments, query and body of every request;
  - `endpoint`: the base URL and endpoint URLs (through `reqwest`'s `Url`)
    and the `Authorization` header value;
  - `response`: status handling, failure messages, body summaries, the
    text-size limit and build-log rendering;
  - `pagination`: the state machine that fetches every page of a list;
  - `model`, `output`: the resources and their text forms;
  - `actions`: the commands and what each of them does;
  - `text`, `error`: string helpers and the library's errors.
- `app/` is the program: argument parsing, the configuration file, HTTP
  with `reqwest`, JSON with `serde`, and printing.
- `tests/` runs the library on concrete values.
