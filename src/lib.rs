//! Route tables from an annotated enumeration: the attribute model, the
//! URL templates, and the text of the generated `impl` blocks.
pub mod emit;
pub mod expand;
pub mod model;
pub mod naming;
pub mod render;
pub mod template;
pub mod text;
