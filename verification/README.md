# arc_vec

Atomically reference-counted vectors, verified with Verus.

* `ArcVec<T>` is a shared handle to a buffer (`std::sync::Arc`). Reading is
  free; `try_mut`, `mutate`, `try_own` and `own` give write access, copying the
  buffer first when other handles share it.
* `MutArcVec<T>` is a uniquely owned buffer with an explicit capacity:
  `push`, `insert`, `remove`, `swap_remove`, `append`, `reserve`, `shrink`,
  `truncate`, `retain`, ...
* Both index with `usize`, with negative `isize` (counting from the back) and
  with ranges of either.

Layout of `src/`:

* `capacity.rs` – when a capacity can be allocated, and how `reserve` and
  `push` change it.
* `filter.rs` – the model of `retain`: a sequence filtered by per-position marks.
* `ranges.rs` – the std range types and `RangeInclusive` accessors that indexing reads.
* `mut_arc_vec.rs` – `MutArcVec`, its view (`Seq<T>`), capacity and
  well-formedness, and the laws relating its operations.
* `arc_vec.rs` – `ArcVec`, and the `Arc` operations it is built on.
* `arc_vec_index.rs`, `mut_arc_vec_index.rs` – `neg_idx` and the `Index` impls.
