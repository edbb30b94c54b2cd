# readmetoo

A Markdown reader for the terminal: Markdown is parsed with `pulldown-cmark`
and rendered as ANSI-styled text with one of twenty built-in colour themes,
boxed code blocks, Unicode tables, wrapped paragraphs and an optional pager.

The library in `src/` is written in Verus. Each public function states what it
returns in its contract, over a mathematical model of the renderer:

- `render_model` — the renderer's state and the effect of every parse event on
  it, as specification functions; `finish` is a whole document.
- `renderer` — the executable renderer, proved to follow the model event by
  event (`render_parsed`, `render`, `render_to_string_with`).
- `markdown` — parse events as plain values, obtained from `pulldown-cmark`.
- `theme`, `ansi`, `text` — themes, styling sequences and text helpers.
- `config`, `cli`, `pager`, `error` — settings, the decisions a run takes from
  its options, and the messages it reports.
- `laws` — properties of the library as a whole (rendering only appends, word
  wrapping keeps lines within the width, table columns fit their cells, options
  override the configuration file, and more).

`app/main.rs` is the program around the library: argument parsing, reading
files and standard input, configuration discovery, reading custom
`*.theme.toml` files from the themes directory, and the pagers.
