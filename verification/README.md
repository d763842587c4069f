# GoLive core

GoLive helps consultants capture a business process while it is being
performed: projects hold processes, processes hold captures (screenshots,
screen recordings, notes), and an AI provider turns a process's captures
into an editable, versioned draft that can be exported as a Word document
or a LaTeX bundle.

## Layout

- `src/` — the library, verified with Verus: the domain models and their
  validation rules, the repository contracts with in-memory stores, the
  media naming and reconciliation rules, the services (projects,
  processes, captures, settings, AI drafts, exports), the OpenAI request
  and error mapping, and the recording and active-process state.
- `tests/` — tests of the library.
- `app/` — the desktop back end around the library: a JSON-lines command
  loop over SQLite (`rusqlite`, `r2d2`), the captures directory on disk,
  the OS credential store (`keyring`), the HTTP exchange with OpenAI
  (`reqwest`), and the writers of `.zip` and `.docx` files.

Run the back end with `golive <data directory>` and send one request per
line, for example `{"id": 1, "command": "list_projects", "input": null}`.
