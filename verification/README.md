# narcissus

Verified building blocks of the narcissus engine libraries, written in Verus.

`src/` is the verified library:

- `mod_inverse` — multiplicative inverses modulo 2^64 and 2^32 (Hurchalla's iteration), proved
  correct for every odd input.
- `math` — full-width products, power-of-two alignment, page size.
- `linear_log_binning` — the `Bin` size classes of a linear-log binning scheme, rounding sizes up
  and down, with the bin arithmetic proved against its mathematical definition.
- `cstr` — C string validation and extraction (uses `memchr`).
- `bitflags`, `vulkan`, `vulkan_external` — Vulkan bit masks, handles, version numbers and plain
  data structures.
- `blake3_platform` — BLAKE3 back-end selection and little-endian word conversions.
- `slice` — window and chunk iteration over slices, and splitting slices into arrays, shared and
  mutable.
- `manual_arc` — a reference-counted pointer released explicitly.
- `raw_vec` — the growth policy of a vector backed by reserved virtual memory.
- `svg`, `font`, `upcast` — colours and their SVG text, glyph value types.
- `sdl2`, `sqlite` — the data of the SDL2 and SQLite bindings: key, button and event codes,
  event records, handle types and result codes.

`app/` holds what stays outside the verified core: CPU feature detection, raw allocation and
pointer helpers, C string conversion, and SVG drawing with floating-point coordinates.

Left out of both `src/` and `app/`, because the code they call is not part of this package:

- the BLAKE3 compression and hashing entry points (`compress_in_place`, `compress_xof`,
  `hash_many`), which dispatch into portable and SIMD kernels written in C;
- the Vulkan function loaders and command wrappers, which load driver entry points as C function
  pointers, and the Vulkan structures that use the enumerations or raw pointers of the C API;
- the font cache, `Font` and the rectangle `Packer`, which call the stb_truetype C library and
  compute with floating-point metrics;
- the virtual memory reserve, commit and release that `VirtualRawVec` asks for: the library
  returns the byte counts, and the operating-system calls belong to the caller;
- the SDL2, SQLite, stb_image and stb_truetype C function declarations.

`ManualArc` holds a `std::sync::Arc`, so dropping one without `release` gives up its reference
instead of panicking.
