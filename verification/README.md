# nju_cli

A client for Nanjing University web services — the unified authentication,
the aTrust Web VPN, the graduate school site and ehall — whose decisions are
proved with Verus.

- `src/` is the verified library. Every function states in `ensures` what it
  returns; calls into `reqwest::Url`, `scraper`, `aes`/`cbc`, `base64`,
  `percent-encoding`, `sanitize-filename`, `serde_json` and `rand` go through
  small trusted wrappers whose contracts name or state what those crates do.
  - `text`, `weburl`, `html`: strings, URLs and HTML selection as plain values.
  - `auth`: the login form, its encryption, the slider captcha's signature,
    timing and attempts, device IDs and credential files.
  - `webvpn`: the host encoding of the Web VPN, request routing, and the SMS
    login as a state machine (`login_step`) with its laws.
  - `graduate_school`: sections, list pages, article lists and entries.
  - `ehall`, `cli`, `mcp`: the training program's answers, the decisions of
    the command-line tool, and the text of the MCP tool's answer.
- `app/` is the `nju-cli` program: arguments, HTTP, files, the terminal and
  the MCP server. It performs the requests that the library decides on.
- `tests/` runs the library on concrete values.
