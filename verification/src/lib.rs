//! Generation of textual debug formatting for named-field structures.
//!
//! Given the parsed shape of one data definition (its name and the ordered
//! list of its named fields), the library produces a sequence of rendering
//! instructions, one per field, and from them both the runtime rendering of
//! an instance (a `name=value,` segment per field, in declaration order) and
//! the source text of a complete formatting routine. Shapes that are not
//! structures with exclusively named fields are refused outright.

pub mod codegen;
pub mod describe;
pub mod render;
pub mod shape;
