use dbg_gen::describe::do_struct;
use dbg_gen::render::{render_fields, render_instance};
use dbg_gen::shape::{Field, FieldList, Shape};

fn named_struct(name: &str, fields: &[(&str, &str)]) -> Shape {
    let fields: Vec<Field> = fields
        .iter()
        .map(|(n, t)| Field {
            name: n.to_string(),
            ty: t.to_string(),
        })
        .collect();
    Shape::Struct {
        name: name.to_string(),
        fields: FieldList::Named(fields),
    }
}

fn strings(values: &[&str]) -> Vec<String> {
    values.iter().map(|v| v.to_string()).collect()
}

#[test]
fn renders_two_fields_as_observed() {
    let shape = named_struct("S", &[("x", "u32"), ("y", "String")]);
    let instrs = do_struct(&shape).unwrap();
    let values = strings(&[&format!("{}", 5u32), "abc"]);
    assert_eq!(render_fields(&instrs, &values), "x=5,y=abc,");
    assert_eq!(render_instance("S", &instrs, &values), "S { x=5,y=abc, }");
}

#[test]
fn renders_zero_fields_as_empty_output() {
    let shape = named_struct("Name", &[]);
    let instrs = do_struct(&shape).unwrap();
    let values = strings(&[]);
    assert_eq!(render_fields(&instrs, &values), "");
    assert_eq!(render_instance("Name", &instrs, &values), "Name {  }");
}

#[test]
fn renders_one_field_with_exactly_one_trailing_comma() {
    let shape = named_struct("S", &[("n", "u32")]);
    let instrs = do_struct(&shape).unwrap();
    let values = strings(&[&format!("{}", 1u32)]);
    assert_eq!(render_fields(&instrs, &values), "n=1,");
}

#[test]
fn renders_segments_in_declaration_order() {
    let shape = named_struct("T", &[("a", "u8"), ("b", "u8"), ("c", "u8")]);
    let instrs = do_struct(&shape).unwrap();
    let values = strings(&["1", "2", "3"]);
    assert_eq!(render_fields(&instrs, &values), "a=1,b=2,c=3,");
}

#[test]
fn rendering_twice_is_byte_identical() {
    let shape = named_struct("S", &[("x", "u32"), ("y", "String")]);
    let instrs = do_struct(&shape).unwrap();
    let values = strings(&["5", "abc"]);
    let first = render_fields(&instrs, &values);
    let second = render_fields(&instrs, &values);
    assert_eq!(first.as_bytes(), second.as_bytes());
    let wrapped_first = render_instance("S", &instrs, &values);
    let wrapped_second = render_instance("S", &instrs, &values);
    assert_eq!(wrapped_first.as_bytes(), wrapped_second.as_bytes());
}

#[test]
fn labels_render_verbatim_whatever_the_values() {
    let shape = named_struct("S", &[("field_one", "String")]);
    let instrs = do_struct(&shape).unwrap();
    let odd = strings(&["a=b,c"]);
    assert_eq!(render_fields(&instrs, &odd), "field_one=a=b,c,");
}
