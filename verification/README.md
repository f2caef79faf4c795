# zot

A small command line for Zotero libraries (Web API or the local desktop API), written as a
Verus-verified library with a thin executable around it.

## Layout

- `src/` — the library, verified with Verus:
  - `parse.rs` — the command-line grammar: options, subcommands, values, environment
    variables and conflicts, as a specification (`spec_parse`) and a parser proved to follow it;
  - `cli.rs` — the parsed command line;
  - `config.rs` — which library to use and where its Web API lives, profile-page lookups;
  - `api.rs`, `request.rs`, `client.rs`, `write.rs` — the requests sent to the Web API and
    how its answers are read, including paging, file uploads and version-checked writes;
  - `add.rs`, `add_metadata.rs`, `update.rs` — building the JSON items that `add` creates
    and the patches that `update` sends;
  - `attachment.rs` — PDF lookup, file metadata and digests, download names;
  - `item.rs`, `output.rs` — items as the Web API returns them and the lines printed for them;
  - `date.rs` — proleptic Gregorian dates from day numbers;
  - `json.rs`, `text.rs`, `error.rs` — JSON values, string helpers and error messages.
- `tests/` — tests of the library.
- `app/` — the executable: environment, files, network, printing, and `clap` help texts.

The library decides what to send and what answers mean; the executable performs each
`HttpRequest` the library builds and hands the answer back.
