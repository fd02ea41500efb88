//! Property-edit history and layer ordering for a two-dimensional shape canvas.
//!
//! The crate keeps a document of shapes, turns text typed into a property field
//! into a reversible command, keeps a linear undo/redo history of such commands,
//! keeps the displayed text of every bound field in step with the document, and
//! reorders the layer list while an entry is dragged.

pub mod command;
pub mod document;
pub mod editor_state;
pub mod error;
pub mod field;
pub mod history;
pub mod icons;
pub mod ident;
pub mod layers;
pub mod parse;
pub mod registry;
pub mod shape;
pub mod text;
pub mod units;
pub mod value;
