//! Values accepted by the menu widget's positioning and focus properties.

pub mod models;

pub use models::{Corner, DefaultFocusState, MenuCorner};
