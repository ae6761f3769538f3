//! Byte-level grammar of the pieces a policy is made of: origins, method
//! tokens and header field names, and the values a header field may carry.
//!
//! Each predicate comes as a spec function and as an executable check that
//! is proved to decide it.

use vstd::prelude::*;
use vstd::slice::slice_to_vec;

verus! {

/// A byte that may stand in a header field value: visible ASCII, space
/// (32 to 126) or horizontal tab (9).
pub open spec fn is_visible_byte(b: u8) -> bool {
    (32 <= b && b < 127) || b == 9
}

/// An ASCII letter or digit.
pub open spec fn is_alphanumeric_byte(b: u8) -> bool {
    (97 <= b && b <= 122) || (65 <= b && b <= 90) || (48 <= b && b <= 57)
}

/// A byte of a method token: a letter, a digit, or one of
/// ``! * + - . ^ _ ` | ~``.
pub open spec fn is_method_byte(b: u8) -> bool {
    is_alphanumeric_byte(b) || b == 33 || b == 42 || b == 43 || b == 45 || b == 46 || b == 94
        || b == 95 || b == 96 || b == 124 || b == 126
}

/// A byte of a header field name: a byte of a method token, or one of
/// `" # $ % & '` (34 to 39).
pub open spec fn is_name_byte(b: u8) -> bool {
    is_method_byte(b) || (34 <= b && b <= 39)
}

/// A header field value: every byte is visible ASCII, space or tab.
pub open spec fn is_field_value(s: Seq<u8>) -> bool {
    forall|i: int| 0 <= i < s.len() ==> is_visible_byte(#[trigger] s[i])
}

/// A method token: at least one byte, each a method byte.
pub open spec fn is_method_token(s: Seq<u8>) -> bool {
    &&& s.len() >= 1
    &&& forall|i: int| 0 <= i < s.len() ==> is_method_byte(#[trigger] s[i])
}

/// A header field name: between 1 and 65535 bytes, each a name byte.
pub open spec fn is_field_name(s: Seq<u8>) -> bool {
    &&& 1 <= s.len() <= 65535
    &&& forall|i: int| 0 <= i < s.len() ==> is_name_byte(#[trigger] s[i])
}

/// The wildcard marker `*`, which stands for every origin.
pub open spec fn wildcard() -> Seq<u8> {
    seq![42u8]
}

/// An exact origin: a field value other than the wildcard marker.
pub open spec fn is_origin(s: Seq<u8>) -> bool {
    is_field_value(s) && s != wildcard()
}

/// The lower-case form of a byte: `A` to `Z` move to `a` to `z`.
pub open spec fn lower_byte(b: u8) -> u8 {
    if 65 <= b && b <= 90 {
        (b + 32) as u8
    } else {
        b
    }
}

/// A byte string with every ASCII letter in lower case.
pub open spec fn lower_case(s: Seq<u8>) -> Seq<u8> {
    Seq::new(s.len(), |i: int| lower_byte(s[i]))
}

/// Every byte string of a list in lower case.
pub open spec fn lower_cases(list: Seq<Seq<u8>>) -> Seq<Seq<u8>> {
    Seq::new(list.len(), |i: int| lower_case(list[i]))
}

/// The kinds of byte string that a policy is made of.
#[derive(Clone, Copy, Debug, PartialEq, Eq, Structural)]
pub enum Grammar {
    /// An exact origin, such as `http://localhost:3000`.
    Origin,
    /// A method token, such as `GET`.
    MethodToken,
    /// A header field name, such as `Content-Type`.
    FieldName,
}

/// A byte string that satisfies a grammar.
pub open spec fn conforms(grammar: Grammar, s: Seq<u8>) -> bool {
    match grammar {
        Grammar::Origin => is_origin(s),
        Grammar::MethodToken => is_method_token(s),
        Grammar::FieldName => is_field_name(s),
    }
}

/// A list whose every member satisfies a grammar.
pub open spec fn all_conform(grammar: Grammar, list: Seq<Seq<u8>>) -> bool {
    forall|i: int| 0 <= i < list.len() ==> conforms(grammar, #[trigger] list[i])
}

/// The byte strings that a list of byte vectors stands for.
pub open spec fn byte_strings(list: Seq<Vec<u8>>) -> Seq<Seq<u8>> {
    Seq::new(list.len(), |i: int| list[i]@)
}

/// Decides `is_field_value`.
pub fn check_field_value(s: &[u8]) -> (ok: bool)
    ensures
        ok == is_field_value(s@),
{
    let mut i: usize = 0;
    while i < s.len()
        invariant
            i <= s.len(),
            forall|j: int| 0 <= j < i ==> is_visible_byte(#[trigger] s@[j]),
        decreases s.len() - i,
    {
        let b = s[i];
        if !((32 <= b && b < 127) || b == 9) {
            return false;
        }
        i += 1;
    }
    true
}

/// Decides `is_origin`.
pub fn check_origin(s: &[u8]) -> (ok: bool)
    ensures
        ok == is_origin(s@),
{
    if s.len() == 1 && s[0] == 42 {
        assert(s@ =~= wildcard());
        return false;
    }
    assert(s@ != wildcard()) by {
        if s@.len() == 1 {
            assert(wildcard()[0] == 42u8);
        }
    }
    check_field_value(s)
}

fn alphanumeric_byte(b: u8) -> (ok: bool)
    ensures
        ok == is_alphanumeric_byte(b),
{
    (97 <= b && b <= 122) || (65 <= b && b <= 90) || (48 <= b && b <= 57)
}

fn method_byte(b: u8) -> (ok: bool)
    ensures
        ok == is_method_byte(b),
{
    alphanumeric_byte(b) || b == 33 || b == 42 || b == 43 || b == 45 || b == 46 || b == 94
        || b == 95 || b == 96 || b == 124 || b == 126
}

/// Decides `is_method_token`.
pub fn check_method_token(s: &[u8]) -> (ok: bool)
    ensures
        ok == is_method_token(s@),
{
    if s.len() == 0 {
        return false;
    }
    let mut i: usize = 0;
    while i < s.len()
        invariant
            i <= s.len(),
            forall|j: int| 0 <= j < i ==> is_method_byte(#[trigger] s@[j]),
        decreases s.len() - i,
    {
        if !method_byte(s[i]) {
            return false;
        }
        i += 1;
    }
    true
}

/// Decides `is_field_name`.
pub fn check_field_name(s: &[u8]) -> (ok: bool)
    ensures
        ok == is_field_name(s@),
{
    if s.len() == 0 || s.len() > 65535 {
        return false;
    }
    let mut i: usize = 0;
    while i < s.len()
        invariant
            i <= s.len(),
            forall|j: int| 0 <= j < i ==> is_name_byte(#[trigger] s@[j]),
        decreases s.len() - i,
    {
        let b = s[i];
        if !(method_byte(b) || (34 <= b && b <= 39)) {
            return false;
        }
        i += 1;
    }
    true
}

/// Decides `conforms`.
pub fn check(grammar: Grammar, s: &[u8]) -> (ok: bool)
    ensures
        ok == conforms(grammar, s@),
{
    match grammar {
        Grammar::Origin => check_origin(s),
        Grammar::MethodToken => check_method_token(s),
        Grammar::FieldName => check_field_name(s),
    }
}

/// Decides `all_conform`.
pub fn check_all(grammar: Grammar, list: &Vec<Vec<u8>>) -> (ok: bool)
    ensures
        ok == all_conform(grammar, byte_strings(list@)),
{
    let mut i: usize = 0;
    while i < list.len()
        invariant
            i <= list.len(),
            forall|j: int| 0 <= j < i ==> conforms(grammar, #[trigger] byte_strings(list@)[j]),
        decreases list.len() - i,
    {
        if !check(grammar, list[i].as_slice()) {
            assert(!conforms(grammar, byte_strings(list@)[i as int]));
            return false;
        }
        i += 1;
    }
    true
}

/// A copy of a list of byte strings.
pub fn copy_list(list: &Vec<Vec<u8>>) -> (copy: Vec<Vec<u8>>)
    ensures
        byte_strings(copy@) == byte_strings(list@),
{
    let mut copy: Vec<Vec<u8>> = Vec::new();
    let mut i: usize = 0;
    while i < list.len()
        invariant
            i <= list.len(),
            copy.len() == i,
            forall|j: int| 0 <= j < i ==> (#[trigger] copy@[j])@ == list@[j]@,
        decreases list.len() - i,
    {
        copy.push(slice_to_vec(list[i].as_slice()));
        i += 1;
    }
    assert(byte_strings(copy@) =~= byte_strings(list@));
    copy
}

/// Whether two byte strings are the same.
pub fn same_bytes(a: &[u8], b: &[u8]) -> (same: bool)
    ensures
        same == (a@ == b@),
{
    if a.len() != b.len() {
        return false;
    }
    let mut i: usize = 0;
    while i < a.len()
        invariant
            i <= a.len(),
            a.len() == b.len(),
            forall|j: int| 0 <= j < i ==> a@[j] == b@[j],
        decreases a.len() - i,
    {
        if a[i] != b[i] {
            return false;
        }
        i += 1;
    }
    assert(a@ =~= b@);
    true
}

/// Whether a list holds a byte string.
pub fn holds_bytes(list: &Vec<Vec<u8>>, item: &[u8]) -> (found: bool)
    ensures
        found == byte_strings(list@).contains(item@),
{
    let mut i: usize = 0;
    while i < list.len()
        invariant
            i <= list.len(),
            forall|j: int| 0 <= j < i ==> (#[trigger] byte_strings(list@)[j]) != item@,
        decreases list.len() - i,
    {
        if same_bytes(list[i].as_slice(), item) {
            assert(byte_strings(list@)[i as int] == item@);
            return true;
        }
        i += 1;
    }
    false
}

} // verus!
