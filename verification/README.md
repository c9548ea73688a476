# medulla_tui

The interaction logic of the Medulla terminal, written in Verus: the
application state machine that routes keys, clicks, wheel notches and pastes,
and the pieces it rests on, each with a contract that Verus proves.

## Layout

- `src/` is the verified library.
  - `app.rs`: the application state, the commands it hands the event loop,
    and the overlays drawn over the content.
  - `keys.rs`, `pointer.rs`: the keyboard and pointer routers, in their order
    of precedence (confirmations, the hand-back question, an attached harness,
    overlays, then the current tab).
  - `commands.rs`, `composer.rs`: slash commands, submitted lines, inline
    prompts and the composer's text field.
  - `harness.rs`: harness sessions: attaching the keyboard (`Ctrl-]`), taking
    and handing back control, the session picker.
  - `rail.rs`, `nav.rs`, `agents.rs`: the Sessions rail and its cursor.
  - `settings.rs`, `hosts.rs`, `feedback.rs`, `decisions.rs`, `lists.rs`,
    `workflows.rs`: the tabs, their pages and overlays.
  - `changes.rs`, `git.rs`, `repository.rs`, `baseline.rs`: the Changes
    review: parsing Git's output, the review cursor, choosing the baseline.
  - `workspace.rs`, `matching.rs`, `text.rs`: ranking workspace suggestions
    and the text helpers below them.
- `tests/` runs the library on concrete values.
- `app/` is the thin edge around it: reading terminal events, the directory
  listings and the Git commands, and handing their results to the library.

## Checking it

Verus checks every contract in `src/`; the tests under `tests/` run the
library on concrete values.
