# fractal

The decision logic of a Matrix chat client, written in Verus and proved
against its contracts.

- `src/` is the verified library: the state of a room (its kind, category,
  members, invites and timeline events), the invitee search of a room,
  password rules, media and file names, the quoting of replies, and the state
  of the widgets of the sidebar, the room history and the room directory.
  `src/laws.rs` states, as proof functions, properties that relate several
  operations.
- `tests/` runs the library on concrete values.
- `app/` holds what the verifier does not see: the program's entry point,
  file-system paths, and the glue that turns Matrix SDK values into the
  library's types and runs the requests that the library decides on.
