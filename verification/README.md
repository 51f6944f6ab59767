# dictate

Local speech-to-text dictation for Wayland desktops: a resident daemon records from
the microphone on a keybinding, transcribes the recording with a local model, and
delivers the text by typing it through the input-method protocol, by the clipboard,
or on stdout.

## Layout

- `src/` is the library, verified with Verus. Where a result depends only on the
  arguments, a function's contract states it exactly. Where it depends on the clock
  or on an outside call (a writer, an opaque I/O error), the contract states what
  holds of every outcome, and a verified `_at` or step function takes that outcome as
  an argument and states its result exactly. The laws that span several functions
  are public proof functions beside them. The main parts:
  - `dictation`: which commands start, stop or cancel a recording, the ten-minute
    sample cap, and the queue of recordings waiting for transcription;
  - `delivery`: the fallback policy from insertion to clipboard to stdout, and the
    report of what happened;
  - `insertion` and `insertion::wayland`: the input-method session (activation,
    serials, commit chunks, flush progress, deadlines) and how its outcome is
    reported;
  - `text_chunks`: splitting text into protocol-sized UTF-8 chunks;
  - `daemon`, `focus`, `niri`: the daemon's decisions, the focus guard before
    insertion and the parsing of what the compositor reports;
  - `models`, `tauri_models`, `settings`, `eval`: the model catalog and settings;
  - `osd`, `overlay_state`, `protocol`, `control`: the overlay's state machine, its
    messages and the control socket's commands;
  - `glyphs`: the overlay's 5×7 bitmap font and the cells each glyph lights;
  - `time`, `strings`: nanosecond clock arithmetic and string building.
- `app/` is the program around the library: command line, sockets, microphone,
  speech recognition, Wayland and clipboard I/O. Verus does not read it.
- `tests/` runs the library on concrete values.
