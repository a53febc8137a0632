# warp_tui — verified session-surface logic

The decision, formatting and state-machine logic behind the warp TUI's
terminal-session surface, written in Verus and proved against its contracts.

- `src/` — the library, verified module by module:
  `text` (styled spans, trimming), `footer_row` / `footer` / `statusline` /
  `datetime` (the footer statusline), `hints` (footer hints and MCP controls),
  `status_menu` (`/status`), `completions` (Tab completion bookkeeping),
  `restore` (conversation restore), `follow_up` and `slash_commands`
  (slash-command decisions and held follow-up prompts), `interrupt` (ctrl-c),
  `session_io`, `session_ui`, `session_events`, `keymap`, `row_checks`,
  and `laws` (properties across operations, as proof functions).
- `tests/` — concrete scenarios run against the compiled library.
- `app/` — the host side: the wall clock the date and time items read.

Two calls are trusted rather than proved: `chrono`'s date formatting, behind
`datetime::chrono_format`, and `String::push`, behind `text::push_char`.
