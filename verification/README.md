# mdex_native

The native side of MDEx: Markdown parsing and rendering with Comrak for
Elixir, with syntax highlighting through Lumis or Syntect.

- `src/` is the library, verified with Verus: the document node types and the
  stack-driven walks that move a tree to Comrak and back (`document`,
  `tree`), link and image HTML with attributes (`html`), sanitizing and
  escaping of rendered HTML with Ammonia's default or a custom policy
  (`safe`, `sanitize`), the options Elixir sends and how they
  override Comrak's (`options`), and for code fences the decorator policy,
  event flattening and adapter state (`fence`, `adapter`, `elixir_types`,
  `bridge`). Calls into Comrak, Ammonia, lol_html, v_htmlescape, Lumis and
  shlex go through small trusted wrappers whose contracts say what each call
  is relied on to do.
- `app/` holds the NIFs: decoding and encoding BEAM terms, Comrak's arena
  and formatters, Lumis's formatters and WASM runtime, and the FFI bridge to
  the `:lumis` NIF.
- `tests/` exercises the library on concrete values.
