//! Typed bindings for a set of Material web components.
//!
//! Each widget kind is described by a property struct whose `render` method
//! computes the custom element to emit: its tag, its attributes and its nested
//! content. Around that stand the few mechanisms that every adapter shares:
//! the mapping from property values to attribute values, the registry that
//! registers each widget kind once, the identifier that an instance keeps
//! across renders, and the bookkeeping of native event listeners.
//!
//! Everything here is a function from plain values to plain values. Touching
//! the document, loading a widget's script and attaching a listener are left
//! to the caller, which is told what to do and in which order.

pub mod attr;
pub mod code_block;
pub mod decimal;
pub mod element;
pub mod event;
pub mod form_field;
pub mod icon_button;
pub mod ident;
pub mod loader;
pub mod menu;
pub mod text_inputs;

pub use attr::AttrValue;
pub use element::{Attribute, CustomElement};
pub use form_field::FormfieldProps;
pub use icon_button::IconButtonProps;
pub use loader::{Registry, WidgetKind};
pub use text_inputs::{TextFieldProps, TextFieldState, TextFieldType};
