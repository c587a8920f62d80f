# detaxine-ui (verified core)

The logic of the detaxine-ui tooling and components, verified with Verus.

- `src/text.rs` — crate identifiers of package names, white space, trimming,
  and the joining of Tailwind class lists.
- `src/class_parse.rs` — a model of how `tailwind_fuse` parses each class,
  stating exactly which class lists make its merge panic (a scanned bracket
  that ends in an unpaired backslash), and a verified checker for it.
- `src/tailwind.rs` — conflict-aware merging of class lists through
  `tailwind_fuse`.
- `src/button.rs` — the button `type` attribute, the icon/text layout, and
  the classes of single and grouped buttons, with the laws that only the
  ends of a group are rounded and that the row is reversed only when the
  icon follows the text.
- `src/scaffold.rs` — the files a new project receives and their paths.
- `src/manifest.rs` — setting the version of the `detaxine-ui` dependency
  of a manifest: the table, field and error cases are decided here, each
  `toml_edit` step sits behind its own wrapper.
- `app/` — the file writes of the scaffolder and the leptos components,
  which call the library for every class and text they use.
