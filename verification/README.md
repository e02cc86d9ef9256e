# reflections

A terminal work journal: todo items, meetings (with Google Calendar sync),
reflections, notes, summaries and a timeline of what happened, with `#tags`
taken from the text.

## Layout

- `src/` is the library, proved correct against its contracts: the models and their
  names, the command-line grammar and date ranges, the key handling of every
  view of the terminal interface (as state machines that answer with actions),
  the meeting form's calendar arithmetic, the meeting synchronisation plan,
  tag extraction, the SQL filters and batch statements, the reading of stored
  rows, the timeline's ordering and formatting, and the OAuth and calendar
  replies. Calls into chrono, serde_json, urlencoding and uuid stand behind
  small trusted wrappers whose contracts say what those crates document.
- `tests/` runs the library on concrete values.
- `app/` is the program around it: argument parsing help, the database
  (turso), files, the editor, HTTP (reqwest), the OAuth redirect listener and
  the terminal drawing (ratatui, crossterm). It performs the actions the
  library decides on and hands the results back.
