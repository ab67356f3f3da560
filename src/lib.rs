//! An ordered list of named, colored items that can be reordered by drag and
//! drop and changed through per-item context-menu actions.
//!
//! The list logic is verified; rendering and gesture detection belong to the
//! presentation layer, which hands this library plain indices and actions.

pub mod color;
pub mod item;
pub mod demo;
pub mod dispatch;

pub use color::Color;
pub use item::Item;
pub use demo::{DragDropDemo, StoreError};
pub use dispatch::{ContextAction, Pass};
