# delta_cli

Command-line option processing for a syntax-highlighting pager of git and diff
output, verified with Verus.

- `src/section_style.rs`: section styles (`box`, `plain`, `underline`) and their
  case-insensitive parsing.
- `src/style_rewrite.rs`: rewriting one style string for the deprecated color
  and `--highlight-removed` options.
- `src/options.rs`: the options, their model, `--color-only` and the rewrite of
  all four diff style options.
- `src/settings.rs`: validity of `--light`/`--dark`/`--theme`, paging mode,
  24-bit color, output width, and the whole processing of a command line.
- `src/laws.rs`: properties of the processing as a whole.
- `app/main.rs`: argument parsing, terminal size and environment, messages.
