//! Analysis behind the `Shrinkwrap` derives: which field of a struct is the
//! inner value a wrapper behaves like, and whether mutable access to that
//! field would widen the visibility the struct promises.

pub mod ast;
pub mod select;
pub mod visibility;

pub use ast::{
    is_marked, validate_derive_input, validate_struct, validate_tuple, AttrMeta, Data, DeriveInput, Field, Fields,
    Multi, NaryTuple, NestedMeta, ShrinkwrapInput, Single, StructDetails, Tuple, ValidationError,
};
pub use select::{find_marked_field, SelectionError};
pub use visibility::{contains, field_visibility, to_path, to_path_restricted, FieldVisibility, PathComponent, Scope};
