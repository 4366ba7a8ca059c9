# mission_center

The verified core of a Linux system monitor and of its GPU daemon.

- `src/` — the library, verified with Verus:
  - `text`: words, lines and unsigned number parsing with the meaning of `str`'s
    `split_whitespace`, `lines` and `parse`;
  - `mem_info`: `/proc/meminfo` read into `MemInfo`;
  - `memory_device`: `dmidecode --type 17` output read into `MemoryDevice`;
  - `shm`: the GPU table shared between the daemon and the monitor;
  - `window`: the main window's page, search and sidebar decisions;
  - `graph_data`: the fixed-length window of samples a graph shows;
  - `readings`: the readings of one refresh;
  - `flatpak`: the application path in `/.flatpak-info`.
- `app/` — the GPU daemon: shared memory, locks, the C helper library, files and
  commands.
- `tests/` — tests of the library.
