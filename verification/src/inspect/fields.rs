use vstd::prelude::*;

use crate::decimal::{decimal, spec_decimal};
use crate::inspect::reflect::{is_option, spec_is_option, str_eq, ReflectKind};

verus! {

/// What the struct inspector reads of one field of a struct.
pub struct FieldReflect {
    /// The field's name.
    pub name: String,
    /// The kind of the field's value.
    pub kind: ReflectKind,
    /// The type path of the field's value.
    pub type_path: String,
    /// For an enum value, the name of its current variant.
    pub variant_name: String,
    /// For an `Option` field, whether the type inside `Some` has a registered default.
    pub some_has_default: bool,
    /// For an `Option` field, whether the type inside `Some` is `bool`.
    pub some_is_bool: bool,
}

pub open spec fn none_name() -> Seq<char> {
    "None"@
}

/// A field shows in the struct's field list unless it is an `Option` holding `None`.
pub open spec fn spec_field_visible(f: FieldReflect) -> bool {
    !spec_is_option(f.kind, f.type_path@) || f.variant_name@ != none_name()
}

/// A field is offered in the "add field" menu when it is an `Option` holding `None` whose
/// inner type has a default.
pub open spec fn spec_field_addable(f: FieldReflect) -> bool {
    spec_is_option(f.kind, f.type_path@) && f.variant_name@ == none_name() && f.some_has_default
}

/// The names of the first `n` fields that satisfy `visible` (when `visible_list`) or
/// `addable` (otherwise), in order.
pub open spec fn spec_names_upto(fs: Seq<FieldReflect>, n: int, visible_list: bool) -> Seq<Seq<char>>
    decreases n,
{
    if n <= 0 {
        Seq::empty()
    } else {
        let prev = spec_names_upto(fs, n - 1, visible_list);
        let f = fs[n - 1];
        if (visible_list && spec_field_visible(f)) || (!visible_list && spec_field_addable(f)) {
            prev.push(f.name@)
        } else {
            prev
        }
    }
}

pub open spec fn string_views(s: Seq<String>) -> Seq<Seq<char>> {
    s.map_values(|x: String| x@)
}

fn field_visible(f: &FieldReflect) -> (r: bool)
    ensures
        r == spec_field_visible(*f),
{
    !is_option(f.kind, f.type_path.as_str()) || !str_eq(f.variant_name.as_str(), "None")
}

fn field_addable(f: &FieldReflect) -> (r: bool)
    ensures
        r == spec_field_addable(*f),
{
    is_option(f.kind, f.type_path.as_str()) && str_eq(f.variant_name.as_str(), "None")
        && f.some_has_default
}

fn field_names(fields: &Vec<FieldReflect>, visible_list: bool) -> (r: Vec<String>)
    ensures
        string_views(r@) == spec_names_upto(fields@, fields@.len() as int, visible_list),
{
    let mut r: Vec<String> = Vec::new();
    let mut i: usize = 0;
    while i < fields.len()
        invariant
            i <= fields.len(),
            string_views(r@) == spec_names_upto(fields@, i as int, visible_list),
        decreases fields.len() - i,
    {
        let f = &fields[i];
        let keep = if visible_list {
            field_visible(f)
        } else {
            field_addable(f)
        };
        if keep {
            let ghost before = r@;
            r.push(f.name.clone());
            assert(string_views(r@) =~= string_views(before).push(fields@[i as int].name@));
        }
        i = i + 1;
    }
    r
}

/// The names of the fields that the struct inspector lists, in order: every field except
/// the `Option` fields that hold `None`.
pub fn visible_field_names(fields: &Vec<FieldReflect>) -> (r: Vec<String>)
    ensures
        string_views(r@) == spec_names_upto(fields@, fields@.len() as int, true),
{
    field_names(fields, true)
}

/// The names of the fields that the "add field" menu offers, in order: the `Option` fields
/// that hold `None` and whose inner type has a default.
pub fn addable_field_names(fields: &Vec<FieldReflect>) -> (r: Vec<String>)
    ensures
        string_views(r@) == spec_names_upto(fields@, fields@.len() as int, false),
{
    field_names(fields, false)
}

/// A field offered in the "add field" menu is never one that the field list shows, and a
/// field that the list hides is an `Option` holding `None`.
pub proof fn lemma_listed_and_addable_are_exclusive(f: FieldReflect)
    ensures
        spec_field_addable(f) ==> !spec_field_visible(f),
        !spec_field_visible(f) ==> spec_is_option(f.kind, f.type_path@) && f.variant_name@ == none_name(),
{
}

/// The value that adding an `Option` field puts into it.
#[derive(Clone, Copy, Debug, PartialEq, Eq, Structural)]
pub enum AddFieldValue {
    /// `Some(true)`.
    SomeTrue,
    /// `Some` of the inner type's default.
    SomeDefault,
    /// Nothing: the inner type has no default.
    Unavailable,
}

/// The value for a newly added `Option` field: `Some(true)` for `Option<bool>`, because
/// `Some(false)` would mostly mean the same as `None`; otherwise `Some` of the inner type's
/// default, when it has one.
pub fn add_field_value(some_is_bool: bool, some_has_default: bool) -> (r: AddFieldValue)
    ensures
        r == (if some_is_bool {
            AddFieldValue::SomeTrue
        } else if some_has_default {
            AddFieldValue::SomeDefault
        } else {
            AddFieldValue::Unavailable
        }),
{
    if some_is_bool {
        AddFieldValue::SomeTrue
    } else if some_has_default {
        AddFieldValue::SomeDefault
    } else {
        AddFieldValue::Unavailable
    }
}

/// How a named struct field is inspected.
#[derive(Clone, Copy, Debug, PartialEq, Eq, Structural)]
pub enum FieldPlan {
    /// Inspect the field's value.
    Field,
    /// Inspect the value inside `Some`; it can be removed.
    Inner,
    /// Show nothing: the field is an `Option` holding `None`.
    Hidden,
}

/// A non-`Option` field is inspected as it is; an `Option` holding a value is inspected
/// through that value, and one holding `None` is not shown.
pub fn named_field_plan(kind: ReflectKind, type_path: &str, variant_name: &str) -> (r: FieldPlan)
    ensures
        r == (if !spec_is_option(kind, type_path@) {
            FieldPlan::Field
        } else if variant_name@ != none_name() {
            FieldPlan::Inner
        } else {
            FieldPlan::Hidden
        }),
{
    if !is_option(kind, type_path) {
        FieldPlan::Field
    } else if !str_eq(variant_name, "None") {
        FieldPlan::Inner
    } else {
        FieldPlan::Hidden
    }
}

pub open spec fn all_true(s: Seq<bool>) -> bool {
    forall|i: int| 0 <= i < s.len() ==> #[trigger] s[i]
}

/// Whether every field of a variant has a default, so that the variant has a default value.
pub fn all_fields_default(field_defaults: &Vec<bool>) -> (r: bool)
    ensures
        r == all_true(field_defaults@),
{
    let mut i: usize = 0;
    while i < field_defaults.len()
        invariant
            i <= field_defaults.len(),
            forall|j: int| 0 <= j < i ==> #[trigger] field_defaults@[j],
        decreases field_defaults.len() - i,
    {
        if !field_defaults[i] {
            return false;
        }
        i = i + 1;
    }
    true
}

/// The indices, in order, of the first `n` variants whose fields all have defaults.
pub open spec fn spec_selectable_upto(ds: Seq<Vec<bool>>, n: int) -> Seq<usize>
    decreases n,
{
    if n <= 0 {
        Seq::empty()
    } else if all_true(ds[n - 1]@) {
        spec_selectable_upto(ds, n - 1).push((n - 1) as usize)
    } else {
        spec_selectable_upto(ds, n - 1)
    }
}

/// The variants offered by an enum's variant menu, given for each variant whether each of
/// its fields has a default: those whose fields all have defaults (unit variants always).
pub fn selectable_variants(variant_field_defaults: &Vec<Vec<bool>>) -> (r: Vec<usize>)
    ensures
        r@ == spec_selectable_upto(variant_field_defaults@, variant_field_defaults@.len() as int),
{
    let mut r: Vec<usize> = Vec::new();
    let mut i: usize = 0;
    while i < variant_field_defaults.len()
        invariant
            i <= variant_field_defaults.len(),
            r@ == spec_selectable_upto(variant_field_defaults@, i as int),
        decreases variant_field_defaults.len() - i,
    {
        if all_fields_default(&variant_field_defaults[i]) {
            r.push(i);
        }
        i = i + 1;
    }
    r
}

/// Among the first `n` variants, a variant is offered exactly when all its fields have
/// defaults, and nothing else is offered.
pub proof fn lemma_selectable_upto_membership(ds: Seq<Vec<bool>>, n: int)
    requires
        0 <= n <= ds.len(),
        ds.len() <= usize::MAX,
    ensures
        forall|k: int|
            0 <= k < n ==> (spec_selectable_upto(ds, n).contains(k as usize) <==> all_true(
                #[trigger] ds[k]@,
            )),
        forall|x: usize| #[trigger] spec_selectable_upto(ds, n).contains(x) ==> x < n,
    decreases n,
{
    if n > 0 {
        lemma_selectable_upto_membership(ds, n - 1);
        let prev = spec_selectable_upto(ds, n - 1);
        let cur = spec_selectable_upto(ds, n);
        let last = (n - 1) as usize;
        if all_true(ds[n - 1]@) {
            assert(cur == prev.push(last));
            assert forall|x: usize| cur.contains(x) <==> (prev.contains(x) || x == last) by {
                if cur.contains(x) {
                    let j = choose|j: int| 0 <= j < cur.len() && cur[j] == x;
                    if j < prev.len() {
                        assert(prev[j] == x);
                    }
                }
                if prev.contains(x) {
                    let j = choose|j: int| 0 <= j < prev.len() && prev[j] == x;
                    assert(cur[j] == x);
                }
                if x == last {
                    assert(cur[prev.len() as int] == x);
                }
            }
        } else {
            assert(cur == prev);
            assert(!prev.contains(last));
        }
    }
}

/// An enum's variant menu offers exactly the variants whose fields all have defaults: each
/// such variant, and no other.
pub proof fn lemma_variant_menu_offers_exactly_defaultable(ds: Seq<Vec<bool>>)
    requires
        ds.len() <= usize::MAX,
    ensures
        forall|k: int|
            0 <= k < ds.len() ==> (spec_selectable_upto(ds, ds.len() as int).contains(k as usize)
                <==> all_true(#[trigger] ds[k]@)),
        forall|x: usize| #[trigger] spec_selectable_upto(ds, ds.len() as int).contains(x) ==> x < ds.len(),
{
    lemma_selectable_upto_membership(ds, ds.len() as int);
}

/// Every variant that the menu offers exists, and the offered variants come in increasing
/// order.
pub proof fn lemma_selectable_in_range(ds: Seq<Vec<bool>>, n: int)
    requires
        0 <= n <= ds.len(),
        ds.len() <= usize::MAX,
    ensures
        forall|k: int|
            0 <= k < spec_selectable_upto(ds, n).len() ==> (#[trigger] spec_selectable_upto(ds, n)[k]) < n,
        forall|a: int, b: int|
            0 <= a < b < spec_selectable_upto(ds, n).len() ==> spec_selectable_upto(ds, n)[a]
                < spec_selectable_upto(ds, n)[b],
    decreases n,
{
    if n > 0 {
        lemma_selectable_in_range(ds, n - 1);
        let prev = spec_selectable_upto(ds, n - 1);
        let cur = spec_selectable_upto(ds, n);
        if all_true(ds[n - 1]@) {
            assert(cur == prev.push((n - 1) as usize));
            assert forall|k: int| 0 <= k < cur.len() implies (#[trigger] cur[k]) < n by {
                if k < prev.len() {
                    assert(cur[k] == prev[k]);
                }
            }
            assert forall|a: int, b: int| 0 <= a < b < cur.len() implies cur[a] < cur[b] by {
                assert(cur[a] == prev[a]);
                if b < prev.len() {
                    assert(cur[b] == prev[b]);
                } else {
                    assert(prev[a] < n - 1);
                }
            }
        } else {
            assert(cur == prev);
        }
    }
}

/// The label of a field of a tuple variant: its index when the variant has more than one
/// field, and nothing when it has one.
pub fn tuple_field_name(index: usize, field_len: usize) -> (r: String)
    ensures
        r@ == (if field_len > 1 {
            spec_decimal(index as nat)
        } else {
            Seq::<char>::empty()
        }),
{
    if field_len > 1 {
        decimal(index)
    } else {
        String::new()
    }
}

/// The heading of a list field: its name followed by the list length in parentheses.
pub fn list_label(name: &str, len: usize) -> (r: String)
    ensures
        r@ == name@ + " ("@ + spec_decimal(len as nat) + ")"@,
{
    let mut s = String::new();
    s.append(name);
    s.append(" (");
    let d = decimal(len);
    s.append(d.as_str());
    s.append(")");
    s
}

/// The "remove last item" button of a list is disabled when the list is empty.
pub fn list_pop_disabled(len: usize) -> (r: bool)
    ensures
        r == (len == 0),
{
    len == 0
}

/// Where a vector field editor takes its spinbox step from.
#[derive(Clone, Copy, Debug, PartialEq, Eq, Structural)]
pub enum StepSource {
    /// The standard step of one tenth.
    Standard,
    /// The field's step attribute.
    Attribute,
    /// One unit in the last decimal place shown: ten to the power of minus the precision.
    FromPrecision,
}

/// The precision and step source of a vector field's spinboxes. Without attributes they
/// show two decimals and step by a tenth; with attributes, a precision attribute sets the
/// decimals, and the step comes from a step attribute or else from the precision.
pub fn vector_editor_params(has_attributes: bool, precision_attr: Option<usize>, has_step_attr: bool) -> (r: (usize, StepSource))
    ensures
        r == (if !has_attributes {
            (2usize, StepSource::Standard)
        } else {
            (
                match precision_attr {
                    Some(p) => p,
                    None => 2usize,
                },
                if has_step_attr {
                    StepSource::Attribute
                } else {
                    StepSource::FromPrecision
                },
            )
        }),
{
    let mut precision: usize = 2;
    let mut step = StepSource::Standard;
    if has_attributes {
        match precision_attr {
            Some(p) => {
                precision = p;
            },
            None => {},
        }
        if has_step_attr {
            step = StepSource::Attribute;
        } else {
            step = StepSource::FromPrecision;
        }
    }
    (precision, step)
}

/// The "add field" menu: the names it offers, or no menu at all when no field can be added.
pub fn add_field_menu(fields: &Vec<FieldReflect>) -> (r: Option<Vec<String>>)
    ensures
        match r {
            Some(names) => string_views(names@) == spec_names_upto(fields@, fields@.len() as int, false)
                && names@.len() > 0,
            None => spec_names_upto(fields@, fields@.len() as int, false).len() == 0,
        },
{
    let names = addable_field_names(fields);
    if names.len() == 0 {
        None
    } else {
        Some(names)
    }
}

/// An enum's variant menu: the variants it offers, or no menu at all when no variant has a
/// default value.
pub fn variant_menu(variant_field_defaults: &Vec<Vec<bool>>) -> (r: Option<Vec<usize>>)
    ensures
        match r {
            Some(items) => items@ == spec_selectable_upto(
                variant_field_defaults@,
                variant_field_defaults@.len() as int,
            ) && items@.len() > 0,
            None => spec_selectable_upto(variant_field_defaults@, variant_field_defaults@.len() as int).len()
                == 0,
        },
{
    let items = selectable_variants(variant_field_defaults);
    if items.len() == 0 {
        None
    } else {
        Some(items)
    }
}

/// Choosing variant `index` in the variant menu: the field is set to that variant's default
/// value (`Some(index)`) when all its fields have defaults; otherwise nothing is written.
pub fn variant_choice(variant_field_defaults: &Vec<Vec<bool>>, index: usize) -> (r: Option<usize>)
    requires
        index < variant_field_defaults@.len(),
    ensures
        r == (if all_true(variant_field_defaults@[index as int]@) {
            Some(index)
        } else {
            None
        }),
{
    if all_fields_default(&variant_field_defaults[index]) {
        Some(index)
    } else {
        None
    }
}

/// The length that a list editor shows: the list's length, or zero when the field does not
/// hold a list.
pub fn list_length(is_list: bool, len: usize) -> (r: usize)
    ensures
        r == (if is_list {
            len
        } else {
            0
        }),
{
    if is_list {
        len
    } else {
        0
    }
}

/// The "(empty list)" placeholder shows exactly when the list has no items.
pub fn list_placeholder_shown(len: usize) -> (r: bool)
    ensures
        r == (len == 0),
{
    len == 0
}

/// Whether the "remove last item" button removes an item: only from a non-empty list.
pub fn list_pop_removes(len: usize) -> (r: bool)
    ensures
        r == (len > 0),
{
    len > 0
}

} // verus!
