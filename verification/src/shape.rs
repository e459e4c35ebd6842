//! The parsed representation of one data definition's shape: the input that
//! generation consumes. Only structures whose fields are all named are
//! supported; every other shape is refused by the describer.

use vstd::prelude::*;

verus! {

/// One named member of a structure: its identifier and its declared type.
///
/// The type text is carried along but never inspected: what is emitted for a
/// field depends on its name alone. Within one shape the field names are
/// unique (the definition the shape was parsed from guarantees it); nothing
/// here re-checks that, and nothing depends on it.
pub struct Field {
    pub name: String,
    pub ty: String,
}

/// The field list of a structure definition.
pub enum FieldList {
    /// Exclusively named fields, in declaration order.
    Named(Vec<Field>),
    /// Unnamed, positional fields (a tuple-like structure); only their count
    /// is retained, since generation refuses such a shape anyway.
    Unnamed(usize),
    /// No field list at all (a unit structure).
    Unit,
}

/// The shape of one data definition, as the host toolchain parsed it.
pub enum Shape {
    Struct { name: String, fields: FieldList },
    Enum { name: String },
    Union { name: String },
}

impl Shape {
    /// The only shape that generation supports: a structure whose fields are
    /// all named (a zero-field `struct S {}` counts; a unit `struct S;` does
    /// not).
    pub open spec fn is_named_struct(self) -> bool {
        match self {
            Shape::Struct { fields: FieldList::Named(_), .. } => true,
            _ => false,
        }
    }

    /// The named fields themselves, in declaration order.
    pub open spec fn named_fields(self) -> Seq<Field>
        recommends
            self.is_named_struct(),
    {
        match self {
            Shape::Struct { fields: FieldList::Named(fields), .. } => fields@,
            _ => Seq::empty(),
        }
    }

    /// The declared field names, in declaration order.
    pub open spec fn field_names(self) -> Seq<Seq<char>>
        recommends
            self.is_named_struct(),
    {
        self.named_fields().map_values(|f: Field| f.name@)
    }
}

} // verus!
