//! The struct that a derive is asked for, and its validated form.
//!
//! A parser hands over the declaration with each field's visibility and
//! marker already read; here it is checked once, and turned into one of the
//! four shapes that code generation knows: a 1-tuple, an n-tuple with a
//! designated element, a struct with a single named field, and a struct with
//! several named fields, one of them designated.
//!
//! Field types are never looked at: they travel as an opaque `T`.

use vstd::prelude::*;

use crate::select::{find_marked_field, selection, SelectionError};
use crate::visibility::{containment, field_visibility, owned, scope_path, FieldVisibility, Scope};

verus! {

/// One field of a struct.
pub struct Field<T> {
    /// The name of a named field; `None` for a tuple element.
    pub ident: Option<String>,
    pub ty: T,
    pub vis: Scope,
    /// Whether the field carries `#[shrinkwrap(main_field)]`.
    pub is_marked: bool,
}

/// An item inside the parentheses of a list attribute.
pub enum NestedMeta {
    /// A bare word, such as `main_field`.
    Word(String),
    /// Anything else: a literal, `name = value`, a nested list.
    Other,
}

/// An attribute of a field, as far as the marker is concerned.
pub enum AttrMeta {
    /// `#[ident(nested, ...)]`.
    List { ident: String, nested: Vec<NestedMeta> },
    /// Any other form of attribute.
    Other,
}

/// Whether an attribute is exactly `#[shrinkwrap(main_field)]`.
pub open spec fn is_main_field_marker(attr: AttrMeta) -> bool {
    match attr {
        AttrMeta::List { ident, nested } => {
            &&& ident@ == "shrinkwrap"@
            &&& nested@.len() == 1
            &&& match nested@[0] {
                NestedMeta::Word(word) => word@ == "main_field"@,
                NestedMeta::Other => false,
            }
        },
        AttrMeta::Other => false,
    }
}

fn is_marker(attr: &AttrMeta) -> (r: bool)
    ensures
        r == is_main_field_marker(*attr),
{
    match attr {
        AttrMeta::List { ident, nested } => {
            if !ident.eq(&owned("shrinkwrap")) || nested.len() != 1 {
                return false;
            }
            match &nested[0] {
                NestedMeta::Word(word) => word.eq(&owned("main_field")),
                NestedMeta::Other => false,
            }
        },
        AttrMeta::Other => false,
    }
}

/// Whether any of a field's attributes marks it as the inner field.
pub fn is_marked(attrs: &Vec<AttrMeta>) -> (r: bool)
    ensures
        r == exists|i: int| 0 <= i < attrs@.len() && is_main_field_marker(#[trigger] attrs@[i]),
{
    let mut i: usize = 0;
    while i < attrs.len()
        invariant
            i <= attrs@.len(),
            forall|j: int| 0 <= j < i ==> !is_main_field_marker(#[trigger] attrs@[j]),
        decreases attrs@.len() - i,
    {
        if is_marker(&attrs[i]) {
            return true;
        }
        i = i + 1;
    }
    false
}

/// The fields of a struct.
pub enum Fields<T> {
    /// `struct S { a: A, b: B }`
    Named(Vec<Field<T>>),
    /// `struct S(A, B);`
    Unnamed(Vec<Field<T>>),
    /// `struct S;`
    Unit,
}

/// What kind of item the derive was put on.
pub enum Data<T> {
    Struct(Fields<T>),
    Enum,
    Union,
}

/// The item a derive is asked for.
pub struct DeriveInput<T> {
    pub ident: String,
    pub vis: Scope,
    /// The number of lifetime, type and const parameters.
    pub generic_params: usize,
    pub data: Data<T>,
}

impl<T> DeriveInput<T> {
    /// Named fields have names.
    pub open spec fn wf(&self) -> bool {
        match self.data {
            Data::Struct(Fields::Named(fields)) => forall|i: int|
                0 <= i < fields@.len() ==> (#[trigger] fields@[i]).ident.is_some(),
            _ => true,
        }
    }
}

/// The name and visibility of the struct.
pub struct StructDetails {
    pub ident: String,
    pub visibility: Scope,
}

/// A 1-tuple struct.
pub struct Tuple<T> {
    pub inner_type: T,
    pub inner_visibility: Scope,
}

/// An n-tuple struct, with one of the elements designated as the one we
/// should deref to.
pub struct NaryTuple<T> {
    pub inner_field_index: usize,
    pub inner_type: T,
    pub inner_visibility: Scope,
}

/// A struct with a single named field.
pub struct Single<T> {
    pub inner_field: String,
    pub inner_type: T,
    pub inner_visibility: Scope,
}

/// A struct with several named fields, one of which we should deref to.
pub struct Multi<T> {
    pub inner_field: String,
    pub inner_type: T,
    pub inner_visibility: Scope,
}

/// A validated struct, in the shape that code generation needs.
pub enum ShrinkwrapInput<T> {
    Tuple(Tuple<T>),
    NaryTuple(NaryTuple<T>),
    Single(Single<T>),
    Multi(Multi<T>),
}

/// Why a derive cannot be generated for an item.
#[derive(Debug, Clone, Copy, PartialEq, Eq, Structural)]
pub enum ValidationError {
    /// The struct has lifetime, type or const parameters.
    Generics,
    /// The item is an enum.
    Enum,
    /// The item is a union.
    Union,
    /// The struct has no fields.
    NoFields,
    /// No inner field could be chosen.
    Selection(SelectionError),
}

/// The visibility of the inner field.
pub open spec fn inner_visibility_of<T>(input: ShrinkwrapInput<T>) -> Scope {
    match input {
        ShrinkwrapInput::Tuple(t) => t.inner_visibility,
        ShrinkwrapInput::NaryTuple(t) => t.inner_visibility,
        ShrinkwrapInput::Single(s) => s.inner_visibility,
        ShrinkwrapInput::Multi(m) => m.inner_visibility,
    }
}

/// The shape made of field `i` out of `fields`, named or not.
pub open spec fn shape<T>(fields: Seq<Field<T>>, i: int, named: bool) -> ShrinkwrapInput<T> {
    let f = fields[i];
    if named {
        if fields.len() == 1 {
            ShrinkwrapInput::Single(
                Single { inner_field: f.ident.unwrap(), inner_type: f.ty, inner_visibility: f.vis },
            )
        } else {
            ShrinkwrapInput::Multi(
                Multi { inner_field: f.ident.unwrap(), inner_type: f.ty, inner_visibility: f.vis },
            )
        }
    } else {
        if fields.len() == 1 {
            ShrinkwrapInput::Tuple(Tuple { inner_type: f.ty, inner_visibility: f.vis })
        } else {
            ShrinkwrapInput::NaryTuple(
                NaryTuple { inner_field_index: i as usize, inner_type: f.ty, inner_visibility: f.vis },
            )
        }
    }
}

/// The validated form of a struct's fields.
pub open spec fn fields_outcome<T>(fields: Seq<Field<T>>, named: bool) -> Result<ShrinkwrapInput<T>, ValidationError> {
    if fields.len() == 0 {
        Err(ValidationError::NoFields)
    } else {
        match selection(fields) {
            Ok(i) => Ok(shape(fields, i, named)),
            Err(e) => Err(ValidationError::Selection(e)),
        }
    }
}

/// The validated form of an item.
pub open spec fn validation<T>(input: DeriveInput<T>) -> Result<ShrinkwrapInput<T>, ValidationError> {
    if input.generic_params > 0 {
        Err(ValidationError::Generics)
    } else {
        match input.data {
            Data::Struct(Fields::Named(fields)) => fields_outcome(fields@, true),
            Data::Struct(Fields::Unnamed(fields)) => fields_outcome(fields@, false),
            Data::Struct(Fields::Unit) => Err(ValidationError::NoFields),
            Data::Enum => Err(ValidationError::Enum),
            Data::Union => Err(ValidationError::Union),
        }
    }
}

/// Checks an item and turns it into the details of the struct and the shape
/// of its inner field.
pub fn validate_derive_input<T>(input: DeriveInput<T>) -> (r: Result<(StructDetails, ShrinkwrapInput<T>), ValidationError>)
    requires
        input.wf(),
    ensures
        match r {
            Ok((details, shape)) => {
                &&& validation(input) == Ok::<ShrinkwrapInput<T>, ValidationError>(shape)
                &&& details.ident == input.ident
                &&& details.visibility == input.vis
            },
            Err(e) => validation(input) == Err::<ShrinkwrapInput<T>, ValidationError>(e),
        },
{
    let DeriveInput { ident, vis, generic_params, data } = input;
    if generic_params > 0 {
        return Err(ValidationError::Generics);
    }
    let shape = match data {
        Data::Struct(Fields::Unnamed(fields)) => validate_tuple(fields),
        Data::Struct(Fields::Named(fields)) => validate_struct(fields),
        Data::Struct(Fields::Unit) => Err(ValidationError::NoFields),
        Data::Enum => Err(ValidationError::Enum),
        Data::Union => Err(ValidationError::Union),
    };
    match shape {
        Ok(shape) => Ok((StructDetails { ident, visibility: vis }, shape)),
        Err(e) => Err(e),
    }
}

/// Validates the elements of a tuple struct.
pub fn validate_tuple<T>(fields: Vec<Field<T>>) -> (r: Result<ShrinkwrapInput<T>, ValidationError>)
    ensures
        r == fields_outcome(fields@, false),
{
    if fields.len() == 0 {
        return Err(ValidationError::NoFields);
    }
    match find_marked_field(fields) {
        Err(e) => Err(ValidationError::Selection(e)),
        Ok((index, field, unmarked)) => {
            let Field { ident, ty, vis, .. } = field;
            if unmarked.len() == 0 {
                Ok(ShrinkwrapInput::Tuple(Tuple { inner_type: ty, inner_visibility: vis }))
            } else {
                Ok(
                    ShrinkwrapInput::NaryTuple(
                        NaryTuple { inner_field_index: index, inner_type: ty, inner_visibility: vis },
                    ),
                )
            }
        },
    }
}

/// Validates the fields of a struct with named fields.
pub fn validate_struct<T>(fields: Vec<Field<T>>) -> (r: Result<ShrinkwrapInput<T>, ValidationError>)
    requires
        forall|i: int| 0 <= i < fields@.len() ==> (#[trigger] fields@[i]).ident.is_some(),
    ensures
        r == fields_outcome(fields@, true),
{
    if fields.len() == 0 {
        return Err(ValidationError::NoFields);
    }
    match find_marked_field(fields) {
        Err(e) => Err(ValidationError::Selection(e)),
        Ok((index, field, unmarked)) => {
            let Field { ident, ty, vis, .. } = field;
            let name = ident.unwrap();
            if unmarked.len() == 0 {
                Ok(ShrinkwrapInput::Single(Single { inner_field: name, inner_type: ty, inner_visibility: vis }))
            } else {
                Ok(ShrinkwrapInput::Multi(Multi { inner_field: name, inner_type: ty, inner_visibility: vis }))
            }
        },
    }
}

impl<T> ShrinkwrapInput<T> {
    /// Whether mutable access to the inner field keeps within the visibility
    /// of the struct: only `Visible` allows it.
    pub fn mutable_access(&self, details: &StructDetails) -> (r: FieldVisibility)
        ensures
            r == containment(scope_path(inner_visibility_of(*self)), scope_path(details.visibility)),
    {
        let inner = match self {
            ShrinkwrapInput::Tuple(t) => &t.inner_visibility,
            ShrinkwrapInput::NaryTuple(t) => &t.inner_visibility,
            ShrinkwrapInput::Single(s) => &s.inner_visibility,
            ShrinkwrapInput::Multi(m) => &m.inner_visibility,
        };
        field_visibility(&details.visibility, inner)
    }
}

} // verus!
