//! The protective headers that every outgoing response carries.
//!
//! The table of headers is fixed. Stamping it on a header map sets each of
//! its lines, replacing whatever the map held under that name, and leaves
//! every other name alone.

use crate::token::{is_field_name, is_field_value, lower_case};
use http::header::{HeaderMap, HeaderValue};
use vstd::prelude::*;
use vstd::string::StringSliceAdditionalSpecFns;

verus! {

/// `http::HeaderValue`: the bytes of one header field value.
#[verifier::external_type_specification]
#[verifier::external_body]
pub struct ExHeaderValue(HeaderValue);

/// `http::HeaderMap`: the header fields of a request or a response.
#[verifier::external_type_specification]
#[verifier::external_body]
#[verifier::reject_recursive_types(T)]
pub struct ExHeaderMap<T>(HeaderMap<T>);

/// What a header map holds: under each field name, written in lower case,
/// the values stored for it, first to last.
pub uninterp spec fn header_entries(headers: HeaderMap<HeaderValue>) -> Map<Seq<u8>, Seq<Seq<u8>>>;

/// The most field names a map may hold when a field is set on it. Setting
/// a field fails only where the map's table would have to grow past its
/// 32768 slots, and the table grows no sooner than a fifth full.
pub const MAX_FIELD_NAMES: usize = 6553;

/// `HeaderMap::insert` with a static name and a value made by
/// `HeaderValue::from_static`. The map stores the name in lower case and
/// keeps the new value as the only one under it. The outside functions
/// panic on a name or a value outside its grammar, and where the map's
/// table cannot grow.
#[verifier::external_body]
fn insert_header(headers: &mut HeaderMap<HeaderValue>, name: &'static str, value: &'static str)
    requires
        is_field_name(name.spec_bytes()),
        is_field_value(value.spec_bytes()),
        header_entries(*old(headers)).dom().len() <= MAX_FIELD_NAMES,
    ensures
        header_entries(*final(headers)) == header_entries(*old(headers)).insert(
            lower_case(name.spec_bytes()),
            seq![value.spec_bytes()],
        ),
        header_entries(*final(headers)).dom().len() <= header_entries(*old(headers)).dom().len()
            + 1,
{
    headers.insert(name, HeaderValue::from_static(value));
}

/// `HeaderMap::keys_len`: the number of distinct field names in the map.
#[verifier::external_body]
fn field_name_count(headers: &HeaderMap<HeaderValue>) -> (count: usize)
    ensures
        count == header_entries(*headers).dom().len(),
{
    headers.keys_len()
}

pub const CONTENT_SECURITY_POLICY: &'static str =
    "default-src 'self'; script-src 'self'; style-src 'self' 'unsafe-inline'; img-src 'self' data: https:; font-src 'self'; connect-src 'self'; frame-ancestors 'none';";

pub const STRICT_TRANSPORT_SECURITY: &'static str = "max-age=31536000; includeSubDomains; preload";

pub const X_CONTENT_TYPE_OPTIONS: &'static str = "nosniff";

pub const X_FRAME_OPTIONS: &'static str = "DENY";

pub const REFERRER_POLICY: &'static str = "strict-origin-when-cross-origin";

/// One line of the table: a field name and the value set under it.
#[derive(Clone, Copy, Debug)]
pub struct HeaderLine {
    pub name: &'static str,
    pub value: &'static str,
}

/// The bytes of a line.
pub struct LineView {
    pub name: Seq<u8>,
    pub value: Seq<u8>,
}

impl View for HeaderLine {
    type V = LineView;

    open spec fn view(&self) -> LineView {
        LineView { name: self.name.spec_bytes(), value: self.value.spec_bytes() }
    }
}

impl LineView {
    /// The name under which a map stores the line.
    pub open spec fn key(self) -> Seq<u8> {
        lower_case(self.name)
    }

    /// A line that a map accepts.
    pub open spec fn well_formed(self) -> bool {
        is_field_name(self.name) && is_field_value(self.value)
    }
}

/// The views of a list of lines.
pub open spec fn line_views(lines: Seq<HeaderLine>) -> Seq<LineView> {
    Seq::new(lines.len(), |i: int| lines[i]@)
}

/// The table of protective headers, in the order in which they are set.
pub open spec fn security_header_lines() -> Seq<LineView> {
    seq![
        LineView {
            name: "Content-Security-Policy".spec_bytes(),
            value: CONTENT_SECURITY_POLICY.spec_bytes(),
        },
        LineView {
            name: "Strict-Transport-Security".spec_bytes(),
            value: STRICT_TRANSPORT_SECURITY.spec_bytes(),
        },
        LineView {
            name: "X-Content-Type-Options".spec_bytes(),
            value: X_CONTENT_TYPE_OPTIONS.spec_bytes(),
        },
        LineView { name: "X-Frame-Options".spec_bytes(), value: X_FRAME_OPTIONS.spec_bytes() },
        LineView { name: "Referrer-Policy".spec_bytes(), value: REFERRER_POLICY.spec_bytes() },
    ]
}

/// A map after one line is set on it: the line's value is the only one
/// under its name.
pub open spec fn stamp(entries: Map<Seq<u8>, Seq<Seq<u8>>>, line: LineView) -> Map<
    Seq<u8>,
    Seq<Seq<u8>>,
> {
    entries.insert(line.key(), seq![line.value])
}

/// A map after the first `n` lines of a table are set on it, in order.
pub open spec fn stamp_first(
    entries: Map<Seq<u8>, Seq<Seq<u8>>>,
    lines: Seq<LineView>,
    n: nat,
) -> Map<Seq<u8>, Seq<Seq<u8>>>
    decreases n,
{
    if n == 0 {
        entries
    } else {
        stamp(stamp_first(entries, lines, (n - 1) as nat), lines[n - 1])
    }
}

/// A map after the whole table of protective headers is set on it.
pub open spec fn hardened(entries: Map<Seq<u8>, Seq<Seq<u8>>>) -> Map<Seq<u8>, Seq<Seq<u8>>> {
    stamp_first(entries, security_header_lines(), security_header_lines().len())
}

/// The table of protective headers.
pub fn security_header_set() -> (set: Vec<HeaderLine>)
    ensures
        line_views(set@) == security_header_lines(),
{
    let mut set: Vec<HeaderLine> = Vec::new();
    set.push(HeaderLine { name: "Content-Security-Policy", value: CONTENT_SECURITY_POLICY });
    set.push(HeaderLine { name: "Strict-Transport-Security", value: STRICT_TRANSPORT_SECURITY });
    set.push(HeaderLine { name: "X-Content-Type-Options", value: X_CONTENT_TYPE_OPTIONS });
    set.push(HeaderLine { name: "X-Frame-Options", value: X_FRAME_OPTIONS });
    set.push(HeaderLine { name: "Referrer-Policy", value: REFERRER_POLICY });
    assert(line_views(set@) =~= security_header_lines());
    set
}

/// Every line of the table is one that a map accepts.
pub proof fn lemma_lines_well_formed()
    ensures
        security_header_lines().len() == 5,
        forall|i: int|
            0 <= i < 5 ==> (#[trigger] security_header_lines()[i]).well_formed(),
{
    broadcast use vstd::string::group_string_axioms;

    reveal_strlit("Content-Security-Policy");
    reveal_strlit("Strict-Transport-Security");
    reveal_strlit("X-Content-Type-Options");
    reveal_strlit("X-Frame-Options");
    reveal_strlit("Referrer-Policy");
    reveal_strlit(
        "default-src 'self'; script-src 'self'; style-src 'self' 'unsafe-inline'; img-src 'self' data: https:; font-src 'self'; connect-src 'self'; frame-ancestors 'none';",
    );
    reveal_strlit("max-age=31536000; includeSubDomains; preload");
    reveal_strlit("nosniff");
    reveal_strlit("DENY");
    reveal_strlit("strict-origin-when-cross-origin");
    assert(vstd::string::is_ascii("Content-Security-Policy"));
    assert(vstd::string::is_ascii("Strict-Transport-Security"));
    assert(vstd::string::is_ascii("X-Content-Type-Options"));
    assert(vstd::string::is_ascii("X-Frame-Options"));
    assert(vstd::string::is_ascii("Referrer-Policy"));
    assert(vstd::string::is_ascii(CONTENT_SECURITY_POLICY));
    assert(vstd::string::is_ascii(STRICT_TRANSPORT_SECURITY));
    assert(vstd::string::is_ascii(X_CONTENT_TYPE_OPTIONS));
    assert(vstd::string::is_ascii(X_FRAME_OPTIONS));
    assert(vstd::string::is_ascii(REFERRER_POLICY));
}

/// No two lines of the table are stored under the same name.
pub proof fn lemma_line_keys_distinct()
    ensures
        forall|i: int, j: int|
            0 <= i < j < 5 ==> (#[trigger] security_header_lines()[i]).key() != (
            #[trigger] security_header_lines()[j]).key(),
{
    broadcast use vstd::string::group_string_axioms;

    reveal_strlit("Content-Security-Policy");
    reveal_strlit("Strict-Transport-Security");
    reveal_strlit("X-Content-Type-Options");
    reveal_strlit("X-Frame-Options");
    reveal_strlit("Referrer-Policy");
    assert(vstd::string::is_ascii("Content-Security-Policy"));
    assert(vstd::string::is_ascii("Strict-Transport-Security"));
    assert(vstd::string::is_ascii("X-Content-Type-Options"));
    assert(vstd::string::is_ascii("X-Frame-Options"));
    assert(vstd::string::is_ascii("Referrer-Policy"));
    let lines = security_header_lines();
    assert(lines[0].key().len() == 23);
    assert(lines[1].key().len() == 25);
    assert(lines[2].key().len() == 22);
    assert(lines[3].key().len() == 15 && lines[3].key()[0] == 120u8);
    assert(lines[4].key().len() == 15 && lines[4].key()[0] == 114u8);
}

/// After the table is stamped on a map, whatever the map held before, each
/// line's value is the one and only value under the line's name.
pub proof fn lemma_hardened_holds_every_line(entries: Map<Seq<u8>, Seq<Seq<u8>>>, i: int)
    requires
        0 <= i < security_header_lines().len(),
    ensures
        hardened(entries).dom().contains(security_header_lines()[i].key()),
        hardened(entries)[security_header_lines()[i].key()] == seq![
            security_header_lines()[i].value,
        ],
{
    lemma_line_keys_distinct();
    reveal_with_fuel(stamp_first, 6);
}

/// Stamping the table touches no field but those of its lines: under any
/// other name the map holds what it held before.
pub proof fn lemma_hardened_keeps_other_fields(
    entries: Map<Seq<u8>, Seq<Seq<u8>>>,
    name: Seq<u8>,
)
    requires
        forall|i: int|
            0 <= i < security_header_lines().len() ==> (#[trigger] security_header_lines()[i]).key()
                != name,
    ensures
        hardened(entries).dom().contains(name) == entries.dom().contains(name),
        hardened(entries)[name] == entries[name],
{
    reveal_with_fuel(stamp_first, 6);
}

/// Stamping the table twice gives the same map as stamping it once.
pub proof fn lemma_hardened_idempotent(entries: Map<Seq<u8>, Seq<Seq<u8>>>)
    ensures
        hardened(hardened(entries)) == hardened(entries),
{
    reveal_with_fuel(stamp_first, 6);
    assert(hardened(hardened(entries)) =~= hardened(entries));
}

/// Sets every protective header on a header map. Each takes the place of
/// whatever the map held under its name; every other field stays as it was.
/// The map must hold few enough field names for the table to be set on it;
/// `try_security_headers` asks nothing of the map.
pub fn security_headers(headers: &mut HeaderMap<HeaderValue>)
    requires
        header_entries(*old(headers)).dom().len() + 4 <= MAX_FIELD_NAMES,
    ensures
        header_entries(*final(headers)) == hardened(header_entries(*old(headers))),
{
    let set = security_header_set();
    proof {
        lemma_lines_well_formed();
    }
    let ghost before = header_entries(*headers);
    let mut i: usize = 0;
    while i < set.len()
        invariant
            i <= set.len(),
            set.len() == 5,
            line_views(set@) == security_header_lines(),
            forall|j: int| 0 <= j < 5 ==> (#[trigger] security_header_lines()[j]).well_formed(),
            header_entries(*headers) == stamp_first(before, security_header_lines(), i as nat),
            header_entries(*headers).dom().len() <= before.dom().len() + i,
            before.dom().len() + 4 <= MAX_FIELD_NAMES,
        decreases set.len() - i,
    {
        let line = set[i];
        insert_header(headers, line.name, line.value);
        i += 1;
    }
}

/// Sets every protective header on a header map that has room for them,
/// and says whether it did. A map that holds too many field names is left
/// as it is.
pub fn try_security_headers(headers: &mut HeaderMap<HeaderValue>) -> (done: bool)
    ensures
        done == (header_entries(*old(headers)).dom().len() + 4 <= MAX_FIELD_NAMES),
        done ==> header_entries(*final(headers)) == hardened(header_entries(*old(headers))),
        !done ==> *final(headers) == *old(headers),
{
    let count = field_name_count(headers);
    if count <= MAX_FIELD_NAMES - 4 {
        security_headers(headers);
        true
    } else {
        false
    }
}

} // verus!
