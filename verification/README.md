# deepseek_mobile

The core of the DeepSeek Mobile coding-agent app as a verified library: the
chat timeline and how agent events land in it, the native bridge between the
app and its Android host (command queue, callback correlation, timeouts), the
host callback protocol, document picking and attachments, chat threads, git
and PC pairing screens, project file previews and tree scans, and the text
rules behind file links, diffs and labels.

Every function in `src/` carries a contract over a mathematical model of its
data (views made of `Seq`, `Map` and plain values) and is proved by Verus.
Properties that relate several calls are public proof functions (`lemma_*`),
for example that streamed deltas add up to one row, that a callback for the
waiting request ends the wait while any other is refused, that a diff's
counts match its rows, or that a tree scan never lists more than its limit.

Layout:

- `src/` — the library. `text.rs` and `json.rs` hold the character and JSON
  helpers the other modules reason with; each other module covers one area
  of the app.
- `tests/` — tests of the library on concrete values.
- `app/` — a thin headless host: JSON parsing into the library's values,
  files and flags on disk, the process-wide bridge, and a desktop runner for
  host actions. Callbacks arrive as JSON lines on standard input; actions for
  the host leave as JSON lines on standard output.
