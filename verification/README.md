# roon_tui

The presentation logic of a terminal client for a Roon music server, as a
verified library, with the terminal front end around it.

- `src/` (verified): `theme` (theme colours, `#rrggbb` parsing, lookup with
  defaults, where the theme file is read from), `text` (durations, cutting
  and padding list lines), `style` (which colours and emphasis panes, titles
  and gauges get), `playback` (labels and values of the now-playing, queue and
  browse panes), `zones` (zone and grouping pop-ups), `help` (help text and
  its columns), `layout` (pane geometry through ratatui's layout solver).
- `app/`: reading the theme file, the application state, conversion from the
  Roon API's types, and drawing with ratatui.
- `tests/`: tests of the library on concrete values.
