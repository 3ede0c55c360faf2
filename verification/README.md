# gitcomet_view

The view logic of the GitComet desktop Git client, verified with Verus. Each
module states what its functions return over plain values (integers, strings,
sequences) and proves it:

- `popover` — which popovers are context menus or confirmations, their widths
  and anchor corners, what opening, dismissing and submitting a prompt does.
- `history` — the history list's rows, branch highlights, and the markdown
  preview's markers, colors, typography, layout, highlights and text runs.
- `datetime` — timestamps in the proleptic Gregorian calendar, time-zone
  labels and their settings keys.
- `diff_view` — submodule summaries, the diff search state and the keyboard
  shortcuts of the diff panel.
- `sidebar` — the file browser's visible rows and the sidebar's redraw
  fingerprint.
- `splash` — which screen fills the window.

`app/` holds the conversions from platform types (`SystemTime`, `Path`) to
the library's values. The tests under `tests/` run the library on concrete
values.
