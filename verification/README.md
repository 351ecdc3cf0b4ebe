# cpuinfo

Reads x86 CPUID data: the vendor, the family/model/stepping fields of leaf 1, the hybrid core
type of leaf 1Ah and the extended topology of leaves 0Bh/1Fh.

- `src/` is the library, with its contracts and proofs. Every function that reads CPUID takes the reader
  as a function `Fn(u32, u32) -> CpuidResult`, so its contract speaks of whatever that reader
  returns; a reader with its own contract (such as fixed test data) pins the results down.
- `app/main.rs` is the program: it executes the `cpuid` instruction and prints what the library
  decodes.
- `tests/` runs the library on fixed register values.
