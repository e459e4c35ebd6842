//! The structure describer: walks a shape's field list and emits one
//! rendering instruction per field, in declaration order, or refuses the
//! shape when it is not a structure with exclusively named fields.

use vstd::prelude::*;
use crate::shape::{Field, FieldList, Shape};

verus! {

/// Why generation refused a shape. Refusal is a hard generation-time
/// failure: the host toolchain must stop before producing a runnable
/// program, with no partial output.
#[derive(Clone, Copy, PartialEq, Eq, Structural, Debug)]
pub enum GenError {
    /// The structure's fields are unnamed or absent.
    UnnamedFields,
    /// The shape is an enumeration or a union, not a structure.
    NotAStruct,
}

impl GenError {
    /// The human-readable reason handed to the host toolchain.
    pub open spec fn message_spec(self) -> Seq<char> {
        match self {
            GenError::UnnamedFields => "only named fields are supported"@,
            GenError::NotAStruct => "only implemented for struct"@,
        }
    }

    pub fn message(&self) -> (r: &'static str)
        ensures
            r@ == self.message_spec(),
    {
        match self {
            GenError::UnnamedFields => "only named fields are supported",
            GenError::NotAStruct => "only implemented for struct",
        }
    }
}

/// One rendering instruction: write the label verbatim, then `=`, then the
/// field's current value in its default textual form, then `,`.
#[derive(Debug)]
pub struct Instruction {
    pub label: String,
}

/// The labels of an instruction sequence, in order.
pub open spec fn instruction_labels(instrs: Seq<Instruction>) -> Seq<Seq<char>> {
    instrs.map_values(|i: Instruction| i.label@)
}

/// The error the describer owes for an unsupported shape.
pub open spec fn rejection_of(shape: Shape) -> GenError
    recommends
        !shape.is_named_struct(),
{
    match shape {
        Shape::Struct { .. } => GenError::UnnamedFields,
        _ => GenError::NotAStruct,
    }
}

/// Law: each emitted label is the field's source-level name, exactly and
/// verbatim, and depends on nothing else: two shapes whose fields bear the
/// same names in the same order have identical label sequences, whatever
/// their structure names and declared field types — and the labels mention
/// no value, so no instance can influence them.
pub proof fn lemma_labels_round_trip(a: Shape, b: Shape)
    requires
        a.is_named_struct(),
        b.is_named_struct(),
        a.named_fields().len() == b.named_fields().len(),
        forall|i: int|
            0 <= i < a.named_fields().len() ==> a.named_fields()[i].name@
                == b.named_fields()[i].name@,
    ensures
        forall|i: int|
            0 <= i < a.named_fields().len() ==> a.field_names()[i]
                == a.named_fields()[i].name@,
        a.field_names() == b.field_names(),
{
    assert(a.field_names() =~= b.field_names());
}

/// Builds the rendering instruction sequence for a shape: one instruction
/// per named field, labelled with that field's name, in declaration order.
/// Any shape other than a named-field structure is refused with the error
/// `rejection_of` assigns to it.
pub fn do_struct(shape: &Shape) -> (r: Result<Vec<Instruction>, GenError>)
    ensures
        r is Ok <==> shape.is_named_struct(),
        r matches Ok(instrs) ==> instruction_labels(instrs@) == shape.field_names(),
        r matches Err(e) ==> e == rejection_of(*shape),
{
    match shape {
        Shape::Struct { fields: FieldList::Named(fields), .. } => {
            let mut result: Vec<Instruction> = Vec::new();
            let mut i: usize = 0;
            while i < fields.len()
                invariant
                    i <= fields@.len(),
                    instruction_labels(result@) =~= fields@.take(i as int).map_values(
                        |f: Field| f.name@,
                    ),
                decreases fields@.len() - i,
            {
                let ghost pre = result@;
                let label = fields[i].name.clone();
                result.push(Instruction { label });
                proof {
                    assert(instruction_labels(result@) =~= instruction_labels(pre).push(
                        fields@[i as int].name@,
                    ));
                    assert(fields@.take(i + 1 as int).map_values(|f: Field| f.name@)
                        =~= fields@.take(i as int).map_values(|f: Field| f.name@).push(
                        fields@[i as int].name@,
                    ));
                }
                i = i + 1;
            }
            proof {
                assert(fields@.take(fields@.len() as int) =~= fields@);
                assert(instruction_labels(result@) =~= shape.field_names());
            }
            Ok(result)
        },
        Shape::Struct { .. } => Err(GenError::UnnamedFields),
        Shape::Enum { .. } => Err(GenError::NotAStruct),
        Shape::Union { .. } => Err(GenError::NotAStruct),
    }
}

} // verus!
