# im-crashing

A Wayland input-method front end for the Rime engine, split in two.

- `src/` is the verified library:
  - `rime`: the engine wrapper's lifecycle (use count, one-time setup, final
    release), the engine calls it decides on, and the conversion of the
    engine's records (commit, candidates, menu, composition, context);
  - `preedit`: the text shown in the client while composing, with the cursor
    placed right behind the composed text;
  - `input_method`: one seat's input-method state: queued events applied on
    `Done`, activation, and the keys whose press the engine took;
  - `app_state`: the seat map, the registry decisions and the event-loop
    dispatch.
- `app/` is the program: the event loop, the Wayland objects, the keyboard
  state (libxkbcommon) and the calls into librime.
