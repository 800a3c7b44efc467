# portable-dlmalloc

Doug Lea's `malloc` as the allocator of Rust programs, with the allocators'
own rules verified by Verus.

- `src/` is the library. It decides which heap calls the allocators make and
  what they make of the answers: `heap` (the calls), `resize` (how a block is
  resized, with the laws of a resize), `alt_alloc` (the allocator over a space
  of its own), the global and lazily created allocators in `lib.rs`,
  `granularity` (reading the build-time `mmap` granularity setting), `raw`
  (plain values of the C interface) and `sample`.
- `app/` is the program around it: the C interface of the heap, the
  `GlobalAlloc` implementations that perform the calls, the platform routines for
  Linux and the sample program.
- `tests/` runs the library on concrete values.
