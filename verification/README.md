# material_ui

Material Design 3 components for a UI host, as a library verified with Verus.

The library holds what the components decide: their state and how the
pointer, the keyboard and time change it, the colors, shapes and sizes they
are drawn with, the events they report, the date and time pickers'
calendars, text entry and constraints, locale rules and translations, and
color encodings. Every function in `src/` carries a contract that Verus
proves, and the laws that relate several functions are stated as proof
functions next to them.

## Layout

- `src/` — the verified library, one module per component, plus
  `style` (color roles, paints, lengths, shape and elevation tokens),
  `text` (string building and parsing), `color` (ARGB and hex encodings),
  `locale`, `i18n` and `translations_file` (language files, read with
  `serde_json`), and `telemetry` (test ids of component parts).
- `tests/` — tests of the library.
- `app/` — the host side: reading the environment and language files,
  the color science done in floating point (HCT and tonal palettes), and
  frame timing, which turns floating-point seconds into the milliseconds
  the library counts.

## Units

Components do not hold concrete colors: they name a color role of the
active theme (`style::Paint`). Lengths are whole pixels or percent (a collapsing app bar's height, in
hundredths of a pixel, is exact for whole-pixel scroll offsets);
fractions (progress, animation phases) are thousandths; opacities and
speeds are percent; elapsed time is in milliseconds, and animations add
up whole elapsed time rather than rounded steps; entities are named by
their 64-bit ids.

## Choices

- Language tables (`i18n::MaterialI18n`) are held as a `Vec` of
  (language tag, table) pairs, each table a `Vec` of (key, text) pairs,
  rather than maps keyed by `String`: Verus proves nothing of a `HashMap`
  keyed by `String`. Storing a table for a tag that already has one
  replaces it in place, and a lookup takes the first match, so each tag
  and key stands for one entry as in a map; both are proved against the
  pairs.
- `app/` holds no Bevy plugins, systems or spawn helpers. Bevy with the
  features these need brings more crates than this build can take, so
  the host side here keeps to what needs no engine; what those systems
  decide is in the library (the interaction, animation, layout and
  picker functions), ready to be called from them.
