# obsidian_ui

The interaction logic of a library of editor UI controls, verified with Verus.

- `src/` — the verified library:
  - `controls/` — text editing (selection, typing, navigation and deletion keys), press and
    activation rules of buttons, checkboxes, toggles and menus, menu popup placement and
    focus, dialog visibility, drag state machines of sliders, spinboxes and splitters, and
    the color choices of each control;
  - `focus.rs` — keys and key presses; `colors.rs` — palette colors and adjustments;
  - `materials/` — which corners a rounded-corner option rounds;
  - `overlays/` — the triangle topology of stroked and filled shapes;
  - `inspect/` — the rules of the reflection-based inspector: which fields are listed or
    can be added, which editor a field gets, variant menus and list editors, the paths that
    address each inspected field and what removing a field does;
  - `decimal.rs` — decimal formatting of integers.
- `app/` — glue to Bevy: key codes, concrete colors, shader corner radii, vertex positions,
  slider and spinbox arithmetic, color editing state and reflection adapters (reading
  fields and variants, pushing to and popping from reflected lists).
- `tests/` — tests of the library.
