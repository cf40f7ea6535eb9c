# apix

A terminal HTTP client: send requests, read responses, and keep a history,
collections of saved requests and environments of `{{variables}}`.

- `src/` is the library, verified with Verus. Each public function states
  what it returns or changes; `src/laws.rs` states the properties that span
  several functions (what one step undoes of another, what cycles return
  to, what every key press keeps).
  - `models/`: requests, responses, authentication, history, collections,
    environments and variable substitution.
  - `http/`: the checks and the URL, headers and body a request is sent
    with; a response written out for reading.
  - `tui/`: the interface's state, what each key does to it, and what each
    part of the screen shows, as lines of coloured text.
  - `app.rs`: the client state the interface works on.
  - `update.rs`: what a self-update decides, and the program taken out of
    a release archive.
- `app/` is the program around the library: the terminal, the network,
  the files under `~/.apix/`, the clipboard, and the download and
  installation of a release.
- `tests/` runs the library on concrete values.
