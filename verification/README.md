# shellfirm

A verified library for `shellfirm`, a guard that intercepts risky shell
commands and asks for confirmation before they run, with the logic of its
settings editor.

- `src/engine`: splitting a command line into simple commands, matching
  checks (regular expressions behind `regex`), applying their filters,
  the verdict under a deny list, and the groups of a set of checks.
- `src/wrap.rs`: the interactive-session wrapper's statement buffer,
  delimiter handling, tool configuration and the steps of handling a
  statement.
- `src/tui`: the settings editor's state machines (tabs, widgets, dialogs,
  the custom-check form), its text inputs (editing behind `tui_input`),
  the custom-check store's list operations, the line diff of the preview
  and its scroll offset.
- `src/text.rs`: text helpers shared by the above.
- `app/`: the terminal front end (crossterm, ratatui) and the YAML files
  (serde).

The functions of `src/` carry contracts proved by Verus, except the few
that call into `regex`, `tui_input` or std (each marked
`#[verifier::external_body]`, plus one `assume_specification` for
`Regex::clone`): their contracts are trusted and say, in their doc
comments, what they claim. The laws that relate several functions are
public proof functions beside them.
