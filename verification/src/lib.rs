//! Identifiers that are texts in disguise.
//!
//! [`Id`] owns its text and [`IdSlice`] borrows one; neither checks what the
//! text holds. Both are equal, and hash alike, exactly when their texts are.
//! What each operation gives is stated in its contract, and [`laws`] proves
//! how the operations fit together.

pub mod id;
pub mod laws;
pub mod text;

pub use id::{Id, IdSlice};
