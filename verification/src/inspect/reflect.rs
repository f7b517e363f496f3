use vstd::prelude::*;

verus! {

/// The kind of a reflected value, as the reflection layer reports it.
#[derive(Clone, Copy, Debug, PartialEq, Eq, Structural)]
pub enum ReflectKind {
    Struct,
    TupleStruct,
    Tuple,
    List,
    Array,
    Mapping,
    Enum,
    Value,
}

/// Whether the first `n` characters of `a` and `b` agree, read character by character.
fn same_chars(a: &str, b: &str, n: usize) -> (r: bool)
    requires
        n <= a@.len(),
        n <= b@.len(),
    ensures
        r == (a@.subrange(0, n as int) == b@.subrange(0, n as int)),
{
    let mut i: usize = 0;
    while i < n
        invariant
            i <= n,
            n <= a@.len(),
            n <= b@.len(),
            a@.subrange(0, i as int) == b@.subrange(0, i as int),
        decreases n - i,
    {
        if a.get_char(i) != b.get_char(i) {
            assert(a@.subrange(0, n as int)[i as int] != b@.subrange(0, n as int)[i as int]);
            return false;
        }
        assert(a@.subrange(0, i + 1) =~= a@.subrange(0, i as int).push(a@[i as int]));
        assert(b@.subrange(0, i + 1) =~= b@.subrange(0, i as int).push(b@[i as int]));
        i = i + 1;
    }
    true
}

/// Whether `prefix` is a prefix of `s`, as `str::starts_with` decides.
pub(crate) fn str_starts_with(s: &str, prefix: &str) -> (r: bool)
    ensures
        r == (prefix@.len() <= s@.len() && s@.subrange(0, prefix@.len() as int) == prefix@),
{
    let n = prefix.unicode_len();
    if n > s.unicode_len() {
        return false;
    }
    let r = same_chars(s, prefix, n);
    assert(prefix@.subrange(0, n as int) =~= prefix@);
    r
}

/// Whether both strings hold the same characters, as `==` on `str` decides.
pub(crate) fn str_eq(a: &str, b: &str) -> (r: bool)
    ensures
        r == (a@ == b@),
{
    let n = a.unicode_len();
    if n != b.unicode_len() {
        return false;
    }
    let r = same_chars(a, b, n);
    assert(a@.subrange(0, n as int) =~= a@);
    assert(b@.subrange(0, n as int) =~= b@);
    r
}

/// The type path prefix of `Option`.
pub open spec fn option_path() -> Seq<char> {
    "core::option::Option"@
}

pub open spec fn spec_is_option(kind: ReflectKind, type_path: Seq<char>) -> bool {
    kind == ReflectKind::Enum && option_path().len() <= type_path.len() && type_path.subrange(
        0,
        option_path().len() as int,
    ) == option_path()
}

/// Whether a reflected value is an `Option`: an enum whose type path starts with
/// `core::option::Option`.
pub fn is_option(kind: ReflectKind, type_path: &str) -> (r: bool)
    ensures
        r == spec_is_option(kind, type_path@),
{
    match kind {
        ReflectKind::Enum => str_starts_with(type_path, "core::option::Option"),
        _ => false,
    }
}

} // verus!
