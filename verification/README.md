# cruelty_style

An installer for "cruelty style", a set of gameplay and interface patches for
Cruelty Squad. The patching logic is a Verus-verified library; `app/` is the
interactive installer around it.

Library modules (`src/`):

- `pck`, `rewrite`, `pck_laws`: reading the index of the game's Godot PCK
  archive and writing the archive back with patched files; what a rewritten
  archive reads back as, and its alignment.
- `edits`, `gametext`: the edits each patch makes to the game's scripts and
  scenes, and the game text they look for and insert.
- `byteseq`, `decimal`: byte search and replacement, UTF-8 decoding that drops
  invalid parts, decimal text.
- `options`: the selected patches and their flag text.
- `override_cfg`: the engine override file edit (physics interpolation).
- `settings`: setting FOV and gamma in the game's JSON settings (`serde_json`).
- `faces`: decoding a custom face image or animation and producing the PNG
  frames the patched HUD loads (`image`).
- `locate`, `selection`: where the game and its settings are looked for, the
  patch menu and what a choice in it selects.

`app/main.rs` finds the folders, shows the menu and prompts, reads and writes
files, and calls the library.
