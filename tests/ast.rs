use shrinkwraprs::{
    find_marked_field, is_marked, validate_derive_input, validate_struct, validate_tuple, AttrMeta, Data,
    DeriveInput, Field, Fields, FieldVisibility, NestedMeta, Scope, SelectionError, ShrinkwrapInput, StructDetails,
    ValidationError,
};

fn field(name: Option<&str>, ty: &'static str, marked: bool) -> Field<&'static str> {
    Field { ident: name.map(|n| n.to_string()), ty, vis: Scope::Inherited, is_marked: marked }
}

fn main_field_attr() -> AttrMeta {
    AttrMeta::List { ident: "shrinkwrap".to_string(), nested: vec![NestedMeta::Word("main_field".to_string())] }
}

fn names(fields: &[Field<&'static str>]) -> Vec<Option<String>> {
    fields.iter().map(|f| f.ident.clone()).collect()
}

fn input(data: Data<&'static str>) -> DeriveInput<&'static str> {
    DeriveInput { ident: "Foo".to_string(), vis: Scope::Public, generic_params: 0, data }
}

#[test]
fn test_field_attribute_found() {
    // struct Foo { field1: u32, #[shrinkwrap(main_field)] field2: u32 }
    let fields = vec![("field1", vec![]), ("field2", vec![main_field_attr()])];
    let marked: Vec<&str> = fields.iter().filter(|(_, attrs)| is_marked(attrs)).map(|(name, _)| *name).collect();
    assert_eq!(marked.len(), 1);
    assert_eq!(marked[0], "field2");
}

#[test]
fn test_field_attribute_not_found() {
    // struct Foo { field1: u32, field2: u32 }
    let fields: Vec<(&str, Vec<AttrMeta>)> = vec![("field1", vec![]), ("field2", vec![])];
    let marked: Vec<&str> = fields.iter().filter(|(_, attrs)| is_marked(attrs)).map(|(name, _)| *name).collect();
    assert_eq!(marked.len(), 0);
}

#[test]
fn marker_needs_exact_form() {
    let other_list = AttrMeta::List { ident: "serde".to_string(), nested: vec![NestedMeta::Word("main_field".to_string())] };
    let other_word = AttrMeta::List { ident: "shrinkwrap".to_string(), nested: vec![NestedMeta::Word("other".to_string())] };
    let two_words = AttrMeta::List {
        ident: "shrinkwrap".to_string(),
        nested: vec![NestedMeta::Word("main_field".to_string()), NestedMeta::Word("main_field".to_string())],
    };
    let not_a_word = AttrMeta::List { ident: "shrinkwrap".to_string(), nested: vec![NestedMeta::Other] };
    assert!(!is_marked(&vec![other_list, other_word, two_words, not_a_word, AttrMeta::Other]));
    assert!(is_marked(&vec![AttrMeta::Other, main_field_attr()]));
    assert!(!is_marked(&vec![]));
}

#[test]
fn single_field_selected_unmarked() {
    let (index, selected, rest) = find_marked_field(vec![field(Some("a"), "u32", false)]).unwrap();
    assert_eq!(index, 0);
    assert_eq!(selected.ident.as_deref(), Some("a"));
    assert!(rest.is_empty());
}

#[test]
fn single_field_selected_marked() {
    let (index, selected, rest) = find_marked_field(vec![field(Some("a"), "u32", true)]).unwrap();
    assert_eq!(index, 0);
    assert_eq!(selected.ident.as_deref(), Some("a"));
    assert!(rest.is_empty());
}

#[test]
fn marked_field_selected_among_many() {
    let fields = vec![field(Some("a"), "u32", false), field(Some("b"), "String", true), field(Some("c"), "u8", false)];
    let (index, selected, rest) = find_marked_field(fields).unwrap();
    assert_eq!(index, 1);
    assert_eq!(selected.ident.as_deref(), Some("b"));
    assert_eq!(selected.ty, "String");
    assert_eq!(names(&rest), vec![Some("a".to_string()), Some("c".to_string())]);
}

#[test]
fn selection_ignores_order_of_unmarked_fields() {
    let orders = vec![
        vec![field(Some("m"), "T", true), field(Some("x"), "u8", false), field(Some("y"), "u16", false)],
        vec![field(Some("x"), "u8", false), field(Some("m"), "T", true), field(Some("y"), "u16", false)],
        vec![field(Some("y"), "u16", false), field(Some("x"), "u8", false), field(Some("m"), "T", true)],
    ];
    for fields in orders {
        let (_, selected, _) = find_marked_field(fields).unwrap();
        assert_eq!(selected.ident.as_deref(), Some("m"));
        assert_eq!(selected.ty, "T");
    }
}

#[test]
fn unmarked_fields_are_ambiguous() {
    let fields = vec![field(Some("a"), "u32", false), field(Some("b"), "u32", false)];
    assert_eq!(find_marked_field(fields).err(), Some(SelectionError::Ambiguous));
}

#[test]
fn two_marks_are_rejected() {
    let fields = vec![field(Some("a"), "u32", true), field(Some("b"), "u32", false), field(Some("c"), "u32", true)];
    assert_eq!(find_marked_field(fields).err(), Some(SelectionError::MultiplyMarked));
}

#[test]
fn no_fields_is_empty() {
    let fields: Vec<Field<&'static str>> = vec![];
    assert_eq!(find_marked_field(fields).err(), Some(SelectionError::Empty));
}

#[test]
fn one_tuple_validates() {
    let data = Data::Struct(Fields::Unnamed(vec![field(None, "i32", false)]));
    let (details, shape) = validate_derive_input(input(data)).unwrap();
    assert_eq!(details.ident, "Foo");
    match shape {
        ShrinkwrapInput::Tuple(t) => assert_eq!(t.inner_type, "i32"),
        _ => panic!("expected a 1-tuple"),
    }
}

#[test]
fn nary_tuple_validates() {
    let fields = vec![field(None, "i32", false), field(None, "String", true)];
    match validate_tuple(fields).unwrap() {
        ShrinkwrapInput::NaryTuple(t) => {
            assert_eq!(t.inner_field_index, 1);
            assert_eq!(t.inner_type, "String");
        },
        _ => panic!("expected an n-tuple"),
    }
}

#[test]
fn single_named_field_validates() {
    let fields = vec![field(Some("field1"), "String", false)];
    match validate_struct(fields).unwrap() {
        ShrinkwrapInput::Single(s) => {
            assert_eq!(s.inner_field, "field1");
            assert_eq!(s.inner_type, "String");
        },
        _ => panic!("expected a single named field"),
    }
}

#[test]
fn multi_named_fields_validate() {
    let data = Data::Struct(Fields::Named(vec![field(Some("field1"), "u32", false), field(Some("field2"), "String", true)]));
    let (_, shape) = validate_derive_input(input(data)).unwrap();
    match shape {
        ShrinkwrapInput::Multi(m) => {
            assert_eq!(m.inner_field, "field2");
            assert_eq!(m.inner_type, "String");
        },
        _ => panic!("expected several named fields"),
    }
}

#[test]
fn generics_are_rejected() {
    let mut item = input(Data::Struct(Fields::Unnamed(vec![field(None, "T", false)])));
    item.generic_params = 1;
    assert_eq!(validate_derive_input(item).err(), Some(ValidationError::Generics));
}

#[test]
fn enums_and_unions_are_rejected() {
    assert_eq!(validate_derive_input(input(Data::Enum)).err(), Some(ValidationError::Enum));
    assert_eq!(validate_derive_input(input(Data::Union)).err(), Some(ValidationError::Union));
}

#[test]
fn structs_without_fields_are_rejected() {
    assert_eq!(validate_derive_input(input(Data::Struct(Fields::Unit))).err(), Some(ValidationError::NoFields));
    assert_eq!(validate_derive_input(input(Data::Struct(Fields::Named(vec![])))).err(), Some(ValidationError::NoFields));
    assert_eq!(validate_tuple(Vec::<Field<&'static str>>::new()).err(), Some(ValidationError::NoFields));
}

#[test]
fn selection_errors_are_passed_on() {
    let data = Data::Struct(Fields::Named(vec![field(Some("a"), "u32", false), field(Some("b"), "u32", false)]));
    assert_eq!(
        validate_derive_input(input(data)).err(),
        Some(ValidationError::Selection(SelectionError::Ambiguous))
    );
    let fields = vec![field(None, "u32", true), field(None, "u32", true)];
    assert_eq!(validate_tuple(fields).err(), Some(ValidationError::Selection(SelectionError::MultiplyMarked)));
}

#[test]
fn mutable_access_follows_field_visibility() {
    let details = StructDetails { ident: "Foo".to_string(), visibility: Scope::Crate };
    let mut public_field = field(Some("a"), "u32", false);
    public_field.vis = Scope::Public;
    let shape = validate_struct(vec![public_field]).unwrap();
    assert_eq!(shape.mutable_access(&details), FieldVisibility::Visible);

    let details = StructDetails { ident: "Foo".to_string(), visibility: Scope::Public };
    let mut crate_field = field(None, "u32", false);
    crate_field.vis = Scope::Crate;
    let shape = validate_tuple(vec![crate_field]).unwrap();
    assert_eq!(shape.mutable_access(&details), FieldVisibility::Restricted);

    let private_field = field(None, "u32", false);
    let shape = validate_tuple(vec![private_field]).unwrap();
    assert_eq!(shape.mutable_access(&details), FieldVisibility::CantDetermine);
}
