# omarchy_theme

Theming for Omarchy applications: the active theme's `colors.toml`, parsed into a mode and a set
of colors, completed into the roles an interface plays (background, surfaces, primary, focus, …),
each with the content that stays readable on it, and handed to C callers through a small bridge.

## Layout

- `src/` — the verified library, checked by Verus.
  - `theme/` — `#rrggbb` colors and their `#rrggbb` rendering, the mode, the error type and its
    messages, reading a theme's TOML text into a `Theme`, and the state a watcher keeps between two
    collections (with the laws it obeys).
  - `color/` — roles and content levels, tonal ramps, role resolution from placed grounds, and the
    choice of content among the theme's foregrounds.
  - `modes/` — the representations (inverted, high contrast, mono, print) as transforms over every
    declared color, and the dispatch among them.
  - `api/` — basic palettes completed into extended ones, and the plain values the C bridge hands
    across (snapshots, names, error bytes).
- `app/` — what stays outside the verified core: perceptual tone arithmetic in floating point,
  reading and watching the theme on disk, and the C ABI.
- `tests/` — tests of the library on concrete values.
