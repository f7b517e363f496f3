use vstd::prelude::*;

use crate::inspect::reflect::{str_eq, ReflectKind};

verus! {

/// The kinds of value for which the default factory only shows a read-only placeholder.
#[derive(Clone, Copy, Debug, PartialEq, Eq, Structural)]
pub enum Placeholder {
    Tuple,
    Array,
    Mapping,
    Enum,
}

/// The inspector that the default factory builds for a field.
#[derive(Clone, Copy, Debug, PartialEq, Eq, Structural)]
pub enum InspectorChoice {
    Srgba,
    Vec3,
    NestedStruct,
    NestedTupleStruct,
    List,
    Bool,
    F32,
    Fallback,
    /// A label with a read-only placeholder text.
    Placeholder(Placeholder),
}

pub open spec fn spec_inspector_for(kind: ReflectKind, type_path: Seq<char>) -> InspectorChoice {
    match kind {
        ReflectKind::Struct => if type_path == "bevy_color::srgba::Srgba"@ {
            InspectorChoice::Srgba
        } else if type_path == "glam::Vec3"@ {
            InspectorChoice::Vec3
        } else {
            InspectorChoice::NestedStruct
        },
        ReflectKind::TupleStruct => InspectorChoice::NestedTupleStruct,
        ReflectKind::Tuple => InspectorChoice::Placeholder(Placeholder::Tuple),
        ReflectKind::List => InspectorChoice::List,
        ReflectKind::Array => InspectorChoice::Placeholder(Placeholder::Array),
        ReflectKind::Mapping => InspectorChoice::Placeholder(Placeholder::Mapping),
        ReflectKind::Enum => InspectorChoice::Placeholder(Placeholder::Enum),
        ReflectKind::Value => if type_path == "bool"@ {
            InspectorChoice::Bool
        } else if type_path == "f32"@ {
            InspectorChoice::F32
        } else {
            InspectorChoice::Fallback
        },
    }
}

/// The inspector for a field of the given kind and type path: color and vector structs get
/// their own editors, other structs nest, lists get a list editor, `bool` and `f32` values
/// get their editors, other values a fallback, and the remaining kinds a placeholder.
pub fn inspector_for(kind: ReflectKind, type_path: &str) -> (r: InspectorChoice)
    ensures
        r == spec_inspector_for(kind, type_path@),
{
    match kind {
        ReflectKind::Struct => {
            if str_eq(type_path, "bevy_color::srgba::Srgba") {
                InspectorChoice::Srgba
            } else if str_eq(type_path, "glam::Vec3") {
                InspectorChoice::Vec3
            } else {
                InspectorChoice::NestedStruct
            }
        },
        ReflectKind::TupleStruct => InspectorChoice::NestedTupleStruct,
        ReflectKind::Tuple => InspectorChoice::Placeholder(Placeholder::Tuple),
        ReflectKind::List => InspectorChoice::List,
        ReflectKind::Array => InspectorChoice::Placeholder(Placeholder::Array),
        ReflectKind::Mapping => InspectorChoice::Placeholder(Placeholder::Mapping),
        ReflectKind::Enum => InspectorChoice::Placeholder(Placeholder::Enum),
        ReflectKind::Value => {
            if str_eq(type_path, "bool") {
                InspectorChoice::Bool
            } else if str_eq(type_path, "f32") {
                InspectorChoice::F32
            } else {
                InspectorChoice::Fallback
            }
        },
    }
}

} // verus!
