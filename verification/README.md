# epick

The logic of a color picker that builds harmonic palettes, as a library whose behaviour is
stated in `requires`/`ensures` contracts and proved with Verus.

- `src/` is the verified library:
  - `format.rs` parses custom color formats such as `{r255} {g255:x} {lab_l:.2}`;
    `format_laws.rs` proves that blanks inside the braces of a field do not matter;
  - `render.rs` writes a color by a parsed format, from the values of its fields;
  - `digits.rs` writes numbers in the digit formats (decimal, octal, hex, fractions);
  - `hex.rs` reads and writes `#rrggbb` codes; `export.rs` writes CSS notations, hex lists and
    GIMP palettes; `shades.rs` builds shades and tints;
  - `palette.rs`, `palettes.rs` and `saved_colors.rs` hold the colors a user keeps, with the
    navigation between palettes;
  - `settings.rs`, `color_space.rs` and `ui.rs` hold the settings and what the interface shows.
- `app/` is a command-line program around the library: the floating point color model, the
  files the settings, palettes and saved colors are stored in, and the clipboard.
- `tests/` runs the library on concrete values.
