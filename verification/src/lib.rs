//! Dense, rectangular, strided storage and zero-copy windows into it.
//!
//! One addressing formula, held by [`Accessor`], maps a logical cell
//! `(row, col)` to a position in a flat buffer. The owning [`Matrix`] and the
//! borrowing [`View`] and [`ViewMut`] all read that same formula, and all three
//! are described by the same mathematical model, [`Grid`].

pub mod accessor;
pub mod fault;
pub mod grid;
pub mod matrix;
pub mod view;

pub use accessor::{Accessor, Layout};
pub use fault::Fault;
pub use grid::{Grid, Rect};
pub use matrix::{Matrix, ViewParameters};
pub use view::{View, ViewMut};
