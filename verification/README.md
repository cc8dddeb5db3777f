# zk_config

Configuration model of the block-explorer and portal apps of a ZK stack
ecosystem, verified with Verus.

- `src/` is the verified library: the config records, where their files lie
  (`paths`), the docker-compose services that run the explorer
  (`explorer_compose`), the runtime config script of the explorer app
  (`explorer`), and the string helpers and insertion-ordered string map they
  rest on (`text`, `string_map`). URLs are parsed by the `url` crate behind
  one trusted function (`parsed_url`).
- `app/` holds the serde and clap copies of the records and reads and writes
  the config files through `xshell`.
- `tests/` runs the library on concrete values.
