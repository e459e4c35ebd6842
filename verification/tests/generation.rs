use dbg_gen::codegen::dbg_macro;
use dbg_gen::describe::{do_struct, GenError};
use dbg_gen::shape::{Field, FieldList, Shape};

fn named_struct(name: &str, fields: &[(&str, &str)]) -> Shape {
    let fields: Vec<Field> = fields
        .iter()
        .map(|(n, t)| Field {
            name: n.to_string(),
            ty: t.to_string(),
        })
        .collect();
    Shape::Struct {
        name: name.to_string(),
        fields: FieldList::Named(fields),
    }
}

#[test]
fn describe_emits_one_instruction_per_field_in_order() {
    let shape = named_struct("S", &[("x", "u32"), ("y", "String"), ("z", "bool")]);
    let instrs = do_struct(&shape).unwrap();
    let labels: Vec<&str> = instrs.iter().map(|i| i.label.as_str()).collect();
    assert_eq!(labels, vec!["x", "y", "z"]);
}

#[test]
fn describe_keeps_labels_for_zero_and_one_field() {
    let none = do_struct(&named_struct("Empty", &[])).unwrap();
    assert_eq!(none.len(), 0);
    let one = do_struct(&named_struct("One", &[("n", "u32")])).unwrap();
    assert_eq!(one.len(), 1);
    assert_eq!(one[0].label, "n");
}

#[test]
fn labels_are_unaffected_by_types_and_struct_name() {
    let a = do_struct(&named_struct("A", &[("x", "u32"), ("y", "String")])).unwrap();
    let b = do_struct(&named_struct("B", &[("x", "i64"), ("y", "bool")])).unwrap();
    let la: Vec<&str> = a.iter().map(|i| i.label.as_str()).collect();
    let lb: Vec<&str> = b.iter().map(|i| i.label.as_str()).collect();
    assert_eq!(la, lb);
}

#[test]
fn describe_rejects_tuple_struct() {
    let shape = Shape::Struct {
        name: "P".to_string(),
        fields: FieldList::Unnamed(2),
    };
    let err = do_struct(&shape).unwrap_err();
    assert_eq!(err, GenError::UnnamedFields);
    assert_eq!(err.message(), "only named fields are supported");
}

#[test]
fn describe_rejects_unit_struct() {
    let shape = Shape::Struct {
        name: "U".to_string(),
        fields: FieldList::Unit,
    };
    assert_eq!(do_struct(&shape).unwrap_err(), GenError::UnnamedFields);
}

#[test]
fn describe_rejects_enum() {
    let err = do_struct(&Shape::Enum {
        name: "E".to_string(),
    })
    .unwrap_err();
    assert_eq!(err, GenError::NotAStruct);
    assert_eq!(err.message(), "only implemented for struct");
}

#[test]
fn describe_rejects_union() {
    let err = do_struct(&Shape::Union {
        name: "W".to_string(),
    })
    .unwrap_err();
    assert_eq!(err, GenError::NotAStruct);
}

#[test]
fn generated_routine_text_for_two_fields() {
    let shape = named_struct("S", &[("x", "u32"), ("y", "String")]);
    let code = dbg_macro(&shape).unwrap();
    assert_eq!(
        code,
        "impl std::fmt::Debug for S { \
         fn fmt(&self, f: &mut std::fmt::Formatter<'_>) -> std::fmt::Result { \
         write!(f, \"{}={},\", stringify!(x), self.x)?; \
         write!(f, \"{}={},\", stringify!(y), self.y)?; \
         Ok(()) } }"
    );
}

#[test]
fn generated_routine_text_for_zero_fields() {
    let code = dbg_macro(&named_struct("S", &[])).unwrap();
    assert_eq!(
        code,
        "impl std::fmt::Debug for S { \
         fn fmt(&self, f: &mut std::fmt::Formatter<'_>) -> std::fmt::Result { \
         Ok(()) } }"
    );
}

#[test]
fn generated_routine_lexes_as_a_token_stream() {
    let shape = named_struct("S", &[("x", "u32"), ("y", "String")]);
    let code = dbg_macro(&shape).unwrap();
    let parsed: Result<proc_macro2::TokenStream, _> = code.parse();
    assert!(parsed.is_ok());
}

#[test]
fn generation_fails_outright_on_unsupported_shapes() {
    let tuple = Shape::Struct {
        name: "P".to_string(),
        fields: FieldList::Unnamed(1),
    };
    assert_eq!(dbg_macro(&tuple).unwrap_err(), GenError::UnnamedFields);
    let e = Shape::Enum {
        name: "E".to_string(),
    };
    assert_eq!(dbg_macro(&e).unwrap_err(), GenError::NotAStruct);
    let u = Shape::Union {
        name: "W".to_string(),
    };
    assert_eq!(dbg_macro(&u).unwrap_err(), GenError::NotAStruct);
}
