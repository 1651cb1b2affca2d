//! Singly linked lists under three ownership disciplines.
//!
//! - [`first`]: a stack of `i32` that owns its cells, with a link type of
//!   its own.
//! - [`second`]: the same stack for any element type, with a cursor that
//!   drains it, one that reads it and one that writes to it.
//! - [`third`]: a persistent list whose cells are shared by reference
//!   counting.
//!
//! Every list is seen as the sequence of its elements, head first, and
//! every operation is stated over that sequence in the terms of [`model`].
//! No operation fails: where there is no element, the answer is `None`.
//! Every list releases its cells in a loop, one at a time, so that
//! dropping a long list needs no more stack than dropping a short one.

pub mod first;
pub mod model;
pub mod second;
pub mod third;
