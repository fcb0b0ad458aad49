# rs3cache item definitions

A verified decoder for the item definitions of a RuneScape 3 game cache.

- `src/` is the library, verified with Verus: the byte cursor (`buffer`), the
  field structures (`item_config_fields`, `paramtable`), the definition and its
  decoder (`item_config`), and the proved properties of the decoder (`laws`).
- `app/` turns decoded definitions into JSON (serde) and writes the dump of all
  definitions to disk.
- `tests/` runs the library on concrete bytes.
