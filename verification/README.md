# ntrans

A translation assistant (Google's free endpoint first, MyMemory as fallback)
with a history of translations, settings and a small window, written in Verus.

- `src/` is the verified library:
  - `model` — the language table, lookups by code, Chinese-text detection;
  - `i18n` — interface texts and localized messages in English and Chinese;
  - `json` — JSON values as the upstream answers are read (parsed by serde_json);
  - `providers` — engines, how Google's and MyMemory's answers are read, and
    the steps of one translation (including the fallback);
  - `history` — the history: newest first, repeats moved to the front, capacity;
  - `app_settings`, `cli`, `gui`, `tray`, `fonts`, `ui_msg` — settings, the
    command-line command, the window's state and decisions, tray commands,
    font candidates, background messages;
  - `text` — string helpers (equality, white space, trimming, number formatting).
- `app/` is the program around it: HTTP requests, files, the egui window,
  argument parsing and the icon drawing.
- `tests/` exercise the library.
