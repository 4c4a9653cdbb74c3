# armature_fuzz

The fuzz targets of the armature web framework, split in two.

- `src/` is a Verus-verified library with the targets' own logic: the raw
  HTTP/1.x request lines they synthesize, how they pick methods, shape
  fuzzed headers, query strings, patterns and paths, the size limits they
  apply, the route table and edge cases they drive the router with, and
  whether fuzzed bytes are UTF-8 text that serde_json reads as JSON.
- `app/` holds the targets themselves: the `arbitrary`-derived inputs, the
  calls into the framework, and the serde round trip of a record with a
  floating-point field.

Each `src/` module is named after the target it serves; `request_line`,
`method`, `header_fields` and `text` are shared.
