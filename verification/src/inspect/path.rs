use vstd::prelude::*;

use crate::decimal::{decimal, spec_decimal};
use crate::inspect::fields::{
    add_field_menu, spec_names_upto, string_views, tuple_field_name, visible_field_names,
    FieldReflect,
};
use crate::inspect::reflect::{is_option, spec_is_option, ReflectKind};

verus! {

/// One step of a path from an inspected root to a value inside it.
#[derive(Clone, Debug, PartialEq, Eq)]
pub enum PathAccess {
    /// The named field of a struct (or of a struct-like enum variant).
    Field(String),
    /// The element of a list at an index.
    ListIndex(usize),
    /// The field of a tuple (or tuple-like variant) at an index.
    TupleIndex(usize),
}

/// A field shown in the inspector: its label, where its value lies, where the field lies in
/// its container (the place that a removal changes), and whether it offers a remove button.
#[derive(Clone, Debug, PartialEq, Eq)]
pub struct InspectableField {
    pub name: String,
    /// The path from the root to the value that the field's editor shows and changes.
    pub path: Vec<PathAccess>,
    /// The path from the root to the field as its container holds it.
    pub container_path: Vec<PathAccess>,
    pub can_remove: bool,
}

fn copy_access(a: &PathAccess) -> (r: PathAccess)
    ensures
        r == *a,
{
    match a {
        PathAccess::Field(name) => PathAccess::Field(name.clone()),
        PathAccess::ListIndex(i) => PathAccess::ListIndex(*i),
        PathAccess::TupleIndex(i) => PathAccess::TupleIndex(*i),
    }
}

/// A copy of a path, step for step.
pub fn copy_path(p: &Vec<PathAccess>) -> (r: Vec<PathAccess>)
    ensures
        r@ == p@,
{
    let mut r: Vec<PathAccess> = Vec::new();
    let mut i: usize = 0;
    while i < p.len()
        invariant
            i <= p.len(),
            r@ == p@.take(i as int),
        decreases p.len() - i,
    {
        r.push(copy_access(&p[i]));
        assert(p@.take(i as int + 1) =~= p@.take(i as int).push(p@[i as int]));
        i = i + 1;
    }
    assert(p@.take(p.len() as int) =~= p@);
    r
}

/// The path one step below `p`.
pub fn child_path(p: &Vec<PathAccess>, step: PathAccess) -> (r: Vec<PathAccess>)
    ensures
        r@ == p@.push(step),
{
    let mut r = copy_path(p);
    r.push(step);
    r
}

impl InspectableField {
    /// The field for an inspected root: the empty path, removable.
    pub fn root(name: String) -> (r: Self)
        ensures
            r.name == name,
            r.path@ == Seq::<PathAccess>::empty(),
            r.container_path@ == Seq::<PathAccess>::empty(),
            r.can_remove,
    {
        InspectableField { name, path: Vec::new(), container_path: Vec::new(), can_remove: true }
    }

    /// The field's label.
    pub fn name(&self) -> (r: &str)
        ensures
            r@ == self.name@,
    {
        self.name.as_str()
    }

    /// Whether the field offers a remove button.
    pub fn can_remove(&self) -> (r: bool)
        ensures
            r == self.can_remove,
    {
        self.can_remove
    }
}

/// The row that a list editor shows for element `index` of the list `list`.
pub fn list_item_field(list: &InspectableField, index: usize) -> (r: InspectableField)
    ensures
        r.name@ == spec_decimal(index as nat),
        r.path@ == list.path@.push(PathAccess::ListIndex(index)),
        r.container_path@ == list.path@,
        !r.can_remove,
{
    InspectableField {
        name: decimal(index),
        path: child_path(&list.path, PathAccess::ListIndex(index)),
        container_path: copy_path(&list.path),
        can_remove: false,
    }
}

/// The rows of a list editor for a list of `len` elements, one per element in order.
pub fn list_item_fields(list: &InspectableField, len: usize) -> (r: Vec<InspectableField>)
    ensures
        r@.len() == len,
        forall|i: int|
            0 <= i < len ==> {
                &&& (#[trigger] r@[i]).name@ == spec_decimal(i as nat)
                &&& r@[i].path@ == list.path@.push(PathAccess::ListIndex(i as usize))
                &&& r@[i].container_path@ == list.path@
                &&& !r@[i].can_remove
            },
{
    let mut r: Vec<InspectableField> = Vec::new();
    let mut i: usize = 0;
    while i < len
        invariant
            i <= len,
            r@.len() == i,
            forall|k: int|
                0 <= k < i ==> {
                    &&& (#[trigger] r@[k]).name@ == spec_decimal(k as nat)
                    &&& r@[k].path@ == list.path@.push(PathAccess::ListIndex(k as usize))
                    &&& r@[k].container_path@ == list.path@
                    &&& !r@[k].can_remove
                },
        decreases len - i,
    {
        r.push(list_item_field(list, i));
        i = i + 1;
    }
    r
}

/// The row for the named field `name` of the struct shown by `parent`: it addresses the
/// field below the parent's place in its container, and cannot be removed.
pub fn struct_field_row(parent: &InspectableField, name: &String) -> (r: InspectableField)
    ensures
        r.name == *name,
        r.path@ == parent.container_path@.push(PathAccess::Field(*name)),
        r.container_path@ == r.path@,
        !r.can_remove,
{
    let path = child_path(&parent.container_path, PathAccess::Field(name.clone()));
    InspectableField {
        name: name.clone(),
        container_path: copy_path(&path),
        path,
        can_remove: false,
    }
}

/// The rows for the named fields `names` of the struct shown by `parent`, in order.
pub fn struct_field_rows(parent: &InspectableField, names: &Vec<String>) -> (r: Vec<InspectableField>)
    ensures
        r@.len() == names@.len(),
        forall|i: int|
            0 <= i < names@.len() ==> {
                &&& (#[trigger] r@[i]).name == names@[i]
                &&& r@[i].path@ == parent.container_path@.push(PathAccess::Field(names@[i]))
                &&& r@[i].container_path@ == r@[i].path@
                &&& !r@[i].can_remove
            },
{
    let mut r: Vec<InspectableField> = Vec::new();
    let mut i: usize = 0;
    while i < names.len()
        invariant
            i <= names.len(),
            r@.len() == i,
            forall|k: int|
                0 <= k < i ==> {
                    &&& (#[trigger] r@[k]).name == names@[k]
                    &&& r@[k].path@ == parent.container_path@.push(PathAccess::Field(names@[k]))
                    &&& r@[k].container_path@ == r@[k].path@
                    &&& !r@[k].can_remove
                },
        decreases names.len() - i,
    {
        r.push(struct_field_row(parent, &names[i]));
        i = i + 1;
    }
    r
}

/// The field for the value inside `Some` of an optional field: it addresses that value,
/// keeps the optional field as its place in the container, and can be removed (which sets
/// the optional field to `None`).
pub fn option_inner_field(field: &InspectableField) -> (r: InspectableField)
    ensures
        r.name == field.name,
        r.path@ == field.path@.push(PathAccess::TupleIndex(0)),
        r.container_path@ == field.path@,
        r.can_remove,
{
    InspectableField {
        name: field.name.clone(),
        path: child_path(&field.path, PathAccess::TupleIndex(0)),
        container_path: copy_path(&field.path),
        can_remove: true,
    }
}

/// The field for the named field `name` of an enum value's current struct-like variant.
pub fn variant_named_field(field: &InspectableField, name: &String) -> (r: InspectableField)
    ensures
        r.name == *name,
        r.path@ == field.path@.push(PathAccess::Field(*name)),
        r.container_path@ == field.path@,
        !r.can_remove,
{
    InspectableField {
        name: name.clone(),
        path: child_path(&field.path, PathAccess::Field(name.clone())),
        container_path: copy_path(&field.path),
        can_remove: false,
    }
}

/// The field for field `index` of an enum value's current tuple-like variant with
/// `field_len` fields: labelled with the index when there are several fields, unlabelled
/// otherwise.
pub fn variant_tuple_field(field: &InspectableField, index: usize, field_len: usize) -> (r: InspectableField)
    ensures
        r.name@ == (if field_len > 1 {
            spec_decimal(index as nat)
        } else {
            Seq::<char>::empty()
        }),
        r.path@ == field.path@.push(PathAccess::TupleIndex(index)),
        r.container_path@ == r.path@,
        !r.can_remove,
{
    let path = child_path(&field.path, PathAccess::TupleIndex(index));
    InspectableField {
        name: tuple_field_name(index, field_len),
        container_path: copy_path(&path),
        path,
        can_remove: false,
    }
}

/// The rows of a struct's field list: one for each field that is shown (every field but an
/// `Option` holding `None`), in declaration order, addressed below the struct.
pub fn struct_field_list(parent: &InspectableField, fields: &Vec<FieldReflect>) -> (r: Vec<InspectableField>)
    ensures
        r@.len() == spec_names_upto(fields@, fields@.len() as int, true).len(),
        forall|i: int|
            0 <= i < r@.len() ==> {
                &&& (#[trigger] r@[i]).name@ == spec_names_upto(fields@, fields@.len() as int, true)[i]
                &&& r@[i].path@ == parent.container_path@.push(PathAccess::Field(r@[i].name))
                &&& r@[i].container_path@ == r@[i].path@
                &&& !r@[i].can_remove
            },
{
    let names = visible_field_names(fields);
    let r = struct_field_rows(parent, &names);
    assert forall|i: int| 0 <= i < r@.len() implies (#[trigger] r@[i]).name@ == spec_names_upto(
        fields@,
        fields@.len() as int,
        true,
    )[i] by {
        assert(string_views(names@)[i] == names@[i]@);
    }
    r
}

/// The items of the "add field" menu of the struct shown by `parent`: one for each `Option`
/// field holding `None` whose inner type has a default, in declaration order, addressed
/// below the struct; or no menu at all when there is no such field.
pub fn add_field_items(parent: &InspectableField, fields: &Vec<FieldReflect>) -> (r: Option<Vec<InspectableField>>)
    ensures
        match r {
            Some(items) => {
                &&& items@.len() > 0
                &&& items@.len() == spec_names_upto(fields@, fields@.len() as int, false).len()
                &&& forall|i: int|
                    0 <= i < items@.len() ==> {
                        &&& (#[trigger] items@[i]).name@ == spec_names_upto(
                            fields@,
                            fields@.len() as int,
                            false,
                        )[i]
                        &&& items@[i].path@ == parent.container_path@.push(
                            PathAccess::Field(items@[i].name),
                        )
                        &&& items@[i].container_path@ == items@[i].path@
                        &&& !items@[i].can_remove
                    }
            },
            None => spec_names_upto(fields@, fields@.len() as int, false).len() == 0,
        },
{
    match add_field_menu(fields) {
        Some(names) => {
            let items = struct_field_rows(parent, &names);
            assert forall|i: int| 0 <= i < items@.len() implies (#[trigger] items@[i]).name@
                == spec_names_upto(fields@, fields@.len() as int, false)[i] by {
                assert(string_views(names@)[i] == names@[i]@);
            }
            Some(items)
        },
        None => None,
    }
}

/// How removing an inspected field changes its container.
#[derive(Clone, Copy, Debug, PartialEq, Eq, Structural)]
pub enum Removal {
    /// The container, an `Option`, is set to `None`.
    SetNone,
    /// The container, a list, loses its element at this index; the others keep their order.
    RemoveListItem(usize),
}

/// An optional field is removed by setting its `Option` to `None`; a list element is
/// removed from its list. Any other field cannot be removed.
pub open spec fn spec_field_removal(
    field: InspectableField,
    container_kind: ReflectKind,
    container_type_path: Seq<char>,
) -> Option<Removal> {
    if spec_is_option(container_kind, container_type_path) {
        Some(Removal::SetNone)
    } else if container_kind == ReflectKind::List && field.path@.len() > 0 {
        match field.path@.last() {
            PathAccess::ListIndex(i) => Some(Removal::RemoveListItem(i)),
            _ => None,
        }
    } else {
        None
    }
}

/// What removing `field` does to its container, of kind `container_kind` and type path
/// `container_type_path`, found at the field's `container_path`.
pub fn field_removal(field: &InspectableField, container_kind: ReflectKind, container_type_path: &str) -> (r: Option<Removal>)
    ensures
        r == spec_field_removal(*field, container_kind, container_type_path@),
{
    if is_option(container_kind, container_type_path) {
        Some(Removal::SetNone)
    } else if container_kind == ReflectKind::List && field.path.len() > 0 {
        match &field.path[field.path.len() - 1] {
            PathAccess::ListIndex(i) => Some(Removal::RemoveListItem(*i)),
            _ => None,
        }
    } else {
        None
    }
}

} // verus!
