# hdf5

Rust bindings to the HDF5 library: datatype descriptions and their memory layouts,
dimensions, structured errors and object handles, verified with Verus.

## Layout

- `src/` is the verified library.
  - `h5type.rs`: `TypeDescriptor` and the types it is built from, the `H5Type` trait,
    sizes, alignments, the C and packed representations of compound types, and the
    text that names a type.
  - `layout.rs`: the mathematical model of those layouts and the laws they obey
    (members in index order, aligned and non-overlapping in the C representation,
    contiguous in the packed one).
  - `dim.rs`: the `Dimension` trait for shapes.
  - `error.rs`: `H5Error` with its categories, codes, log fields and text; expanded
    error stacks; checks of the return values of the C library.
  - `handle.rs`: object identifiers and what is decided about them.
  - `datatype.rs`: conversion paths, byte orders, reading a datatype back into a
    descriptor from what the C library reports about it, and the recipe by which the
    C library creates the datatype of a descriptor.
  - `text.rs`: decimal numerals.
- `app/` makes the calls into the HDF5 C library (under a reentrant lock), counts
  references of handles, walks error stacks, and gives the error type the traits of
  `std`, `ndarray` and `tracing`.
- `tests/` exercises the library.
