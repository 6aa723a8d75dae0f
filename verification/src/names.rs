//! Names as the driver sees them: byte strings that end at the first NUL.

use vstd::prelude::*;
use vstd::utf8::{encode_utf8, encode_utf8_decode_utf8};

verus! {

/// The bytes that stand for `name` on the driver's side, without the
/// terminator: its UTF-8 encoding.
pub open spec fn native_bytes(name: Seq<char>) -> Seq<u8> {
    encode_utf8(name)
}

/// Whether `name` can be handed to the driver: a NUL inside it would end the
/// native string early.
pub open spec fn is_convertible(name: Seq<char>) -> bool {
    !native_bytes(name).contains(0u8)
}

/// Whether every name of `names` can be handed to the driver.
pub open spec fn all_convertible(names: Seq<Seq<char>>) -> bool {
    forall|i: int| 0 <= i < names.len() ==> is_convertible(#[trigger] names[i])
}

/// The strings of a list, each as its characters.
pub open spec fn names_view(names: Seq<String>) -> Seq<Seq<char>> {
    names.map_values(|name: String| name@)
}

/// Whether `names[i]` cannot be handed to the driver and every name before it
/// can.
pub open spec fn is_first_inconvertible(names: Seq<Seq<char>>, i: int) -> bool {
    &&& 0 <= i < names.len()
    &&& !is_convertible(names[i])
    &&& forall|k: int| 0 <= k < i ==> is_convertible(#[trigger] names[k])
}

/// The first name of `names` that cannot be handed to the driver, where there
/// is one.
pub open spec fn first_inconvertible(names: Seq<Seq<char>>) -> Option<Seq<char>> {
    if all_convertible(names) {
        None
    } else {
        Some(names[choose|i: int| is_first_inconvertible(names, i)])
    }
}

/// The name that a fixed-size native buffer holds: the bytes before its first
/// NUL, or all of them where it has none.
pub open spec fn terminated_prefix(raw: Seq<u8>) -> Seq<u8> {
    match raw.index_of_first(0u8) {
        Some(end) => raw.take(end),
        None => raw,
    }
}

/// Two names have the same native bytes only if they are the same name: a
/// comparison of bytes is an exact comparison of strings.
pub proof fn law_native_bytes_exact(a: Seq<char>, b: Seq<char>)
    ensures
        native_bytes(a) == native_bytes(b) <==> a == b,
{
    encode_utf8_decode_utf8(a);
    encode_utf8_decode_utf8(b);
}

/// The name in a buffer is the longest start of the buffer without a NUL.
pub proof fn law_terminated_prefix(raw: Seq<u8>)
    ensures
        terminated_prefix(raw).len() <= raw.len(),
        terminated_prefix(raw) == raw.take(terminated_prefix(raw).len() as int),
        !terminated_prefix(raw).contains(0u8),
        terminated_prefix(raw).len() < raw.len() ==> raw[terminated_prefix(raw).len() as int] == 0,
{
    raw.index_of_first_ensures(0u8);
}

/// At most one place is the first that cannot be converted.
pub proof fn lemma_first_inconvertible_unique(names: Seq<Seq<char>>, i: int, j: int)
    requires
        is_first_inconvertible(names, i),
        is_first_inconvertible(names, j),
    ensures
        i == j,
{
}

/// Where a name cannot be converted, a first such name exists, and it is
/// what `first_inconvertible` names.
pub proof fn lemma_first_inconvertible_exists(names: Seq<Seq<char>>, i: int)
    requires
        0 <= i < names.len(),
        !is_convertible(names[i]),
    ensures
        first_inconvertible(names) matches Some(name) && !is_convertible(name) && names.contains(
            name,
        ),
        is_first_inconvertible(names, choose|k: int| is_first_inconvertible(names, k)),
    decreases i,
{
    if forall|k: int| 0 <= k < i ==> is_convertible(#[trigger] names[k]) {
        assert(is_first_inconvertible(names, i));
    } else {
        let k = choose|k: int| 0 <= k < i && !is_convertible(#[trigger] names[k]);
        lemma_first_inconvertible_exists(names, k);
    }
}

/// Reads the name out of a native buffer.
pub fn read_native_name(raw: &[u8]) -> (name: Vec<u8>)
    ensures
        name@ == terminated_prefix(raw@),
{
    let mut name: Vec<u8> = Vec::new();
    let mut i: usize = 0;
    while i < raw.len() && raw[i] != 0
        invariant
            i <= raw.len(),
            name@ == raw@.take(i as int),
            forall|k: int| 0 <= k < i ==> raw@[k] != 0,
        decreases raw.len() - i,
    {
        name.push(raw[i]);
        i += 1;
    }
    proof {
        raw@.index_of_first_ensures(0u8);
    }
    name
}

/// Whether two byte strings are the same.
pub fn same_bytes(a: &[u8], b: &[u8]) -> (same: bool)
    ensures
        same == (a@ == b@),
{
    if a.len() != b.len() {
        return false;
    }
    let mut i: usize = 0;
    while i < a.len()
        invariant
            i <= a.len(),
            a.len() == b.len(),
            forall|k: int| 0 <= k < i ==> a@[k] == b@[k],
        decreases a.len() - i,
    {
        if a[i] != b[i] {
            return false;
        }
        i += 1;
    }
    assert(a@ =~= b@);
    true
}

/// Tests whether `name` can be handed to the driver.
pub fn check_convertible(name: &str) -> (ok: bool)
    ensures
        ok == is_convertible(name@),
{
    let bytes = name.as_bytes();
    let mut i: usize = 0;
    while i < bytes.len()
        invariant
            i <= bytes.len(),
            bytes@ == native_bytes(name@),
            forall|k: int| 0 <= k < i ==> bytes@[k] != 0,
        decreases bytes.len() - i,
    {
        if bytes[i] == 0 {
            return false;
        }
        i += 1;
    }
    true
}

/// Looks for the first name of the list that cannot be handed to the driver.
pub fn find_inconvertible(names: &Vec<String>) -> (found: Option<usize>)
    ensures
        found matches Some(i) ==> is_first_inconvertible(names_view(names@), i as int),
        found is None ==> all_convertible(names_view(names@)),
{
    let mut i: usize = 0;
    while i < names.len()
        invariant
            i <= names.len(),
            forall|k: int| 0 <= k < i ==> is_convertible(#[trigger] names_view(names@)[k]),
        decreases names.len() - i,
    {
        if !check_convertible(names[i].as_str()) {
            return Some(i);
        }
        i += 1;
    }
    None
}

} // verus!
