# Mesh

A lightweight Matrix client: rooms, history, sending, emoji device verification,
Secure Backup, 1:1 voice calls, and a themed three-pane frontend.

## Layout

- `src/` is the core, written in Verus. What the client decides on plain values
  stands here, with contracts that Verus proves: how the room list is sorted, what a call does
  on each signaling event, how audio is cut and buffered, what each message does to
  the frontend and what each screen shows. It performs no I/O. Work for the outside
  is a plain value (`OpenAction`, `CallAction`, `Command`), and so is its outcome.
- `app/` is the program around it: the `iced` widgets, the Matrix library, WebRTC,
  Opus, the audio devices and the files, and what is computed in floating point (the
  motion of the background, resampling, mixing down floating-point samples).
- `tests/` runs the core on concrete values.

## Trusted items

What the core takes on trust is marked `Trusted:` in the doc comments: a few calls
into `chrono`, `dirs`, `matrix-sdk`, `serde_json` and the standard library's character
tables.

## Laws

At the end of a module stand its laws: public proof functions that relate several
operations, such as "one call at a time" or "restoring brings back the login".

## Theming

Mesh reads a TOML palette at startup from `mesh/theme.toml` in the user's
configuration directory. A missing or broken file falls back to Catppuccin Mocha.
The settings screen switches between the presets and the palette file; the choice is
kept in `mesh/config.toml` beside it.
