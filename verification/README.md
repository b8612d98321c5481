# axo

The verified core of the Axo UI framework, written in Verus, and the `axo`
command built around it.

- `src/` is the library, verified by Verus; its functions' contracts state
  what they return and change: permission handling per platform, colour codes, style keywords,
  the sibling-list diff, pointer and text-input state, path and hot-reload
  rules, device models (clipboard, haptics, storage paths), the development
  server's texts and QR drawing, node ids and CLI argument lists.
- `tests/` runs the library on concrete values.
- `app/` is the program: windowing (winit), drawing (wgpu), layout (taffy),
  text (ab_glyph), the Lua and QuickJS script hosts, file watching and the
  command line. It hands the library plain values and acts on its answers.

Verify with Verus on `src/lib.rs`; build and test with cargo.
