# game_patches

Quality-of-life patches for several PC games (Assassin's Creed Unity and
Syndicate, Shadow of Mordor and Shadow of War, Far Cry 3, State of Decay,
Lego Star Wars: The Skywalker Saga), with the patch logic verified by Verus.

## Layout

- `src/` is the verified library.
  - `framework/` is the engine shared by the games: byte patches and code hooks
    with their apply/revert state, the patch manager, the configuration, jump
    and displacement arithmetic on x86 instructions, parsing of the executable's
    PE headers, the console log format.
  - One module per game holds its patches, the rules that decide what they write
    and where, and the integrity-check bypass of the two Assassin's Creed games.
  - The library never touches the game itself: memory is read and written
    through a value of a type that implements the trait
    `framework::memory::Memory` (whose state is the byte at each address;
    `MemoryImage` is one, a block of bytes at a base address), hooks are installed
    and removed through closures handed to `framework::hook`, and anything read
    from the process (decoded instructions, header bytes, thread lists) comes in
    as plain values.
- `tests/` runs the library on concrete values, with `MemoryImage` and other
  in-memory stand-ins for the game's memory.
- `app/` is the Windows side: the process's own memory as a `Memory`,
  signature scanning, `libmem` and Win32 calls, the
  configuration files (`serde` and `toml`), logging (`tracing`, `log`), the
  hook routines that work on floating-point values, and the DLL entry points.
