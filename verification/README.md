# audio_sessions

The verified core of a per-application volume mixer for Windows.

- `src/` is the library, verified with Verus: which audio sessions are listed
  (`session`), how each is named (`session`, `text`), how application icons are
  cached (`icon_cache`) and turned into base64 PNG text (`pixels`, `icon`,
  `base64_text`), which session a volume or mute change reaches (`control`),
  and the front end's greeting (`greeting`).
- `app/` is the desktop program around it: the Tauri commands, the Windows
  Core Audio, shell and GDI calls, and the process table from `sysinfo`.
- `tests/` exercises the library on concrete values.
