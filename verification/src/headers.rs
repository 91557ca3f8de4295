//! Header maps and extensions of HTTP responses, held in the `http` crate's own
//! collections, and the merge of two response heads.
use vstd::prelude::*;

verus! {

/// `http::HeaderMap`, opaque here; what it holds is `header_entries`.
#[verifier::external_type_specification]
#[verifier::external_body]
#[verifier::reject_recursive_types(T)]
pub struct ExHeaderMap<T>(http::HeaderMap<T>);

/// `http::HeaderValue`, opaque here; it only appears as the value type of maps.
#[verifier::external_type_specification]
#[verifier::external_body]
pub struct ExHeaderValue(http::HeaderValue);

/// `http::Extensions`, a map from types to values, opaque here.
#[verifier::external_type_specification]
#[verifier::external_body]
pub struct ExExtensions(http::Extensions);

/// What a header map holds: for each (lower-case) header name, the values
/// stored under it, in the order in which they were added.
pub uninterp spec fn header_entries(map: http::HeaderMap<http::HeaderValue>) -> Map<Seq<char>, Seq<Seq<u8>>>;

/// What an extension map holds: one entry per stored type, the key standing
/// for the type and the value standing for the value stored under it. Neither
/// can be read from verified code; they only let contracts say which entries
/// stay and which values they keep.
pub uninterp spec fn extension_entries(ext: http::Extensions) -> Map<int, int>;

/// A character that a header name may hold (RFC 9110 token characters, in
/// lower case).
pub open spec fn is_header_name_char(c: char) -> bool {
    ||| c == '!' || c == '"' || c == '#' || c == '$' || c == '%' || c == '&' || c == '\''
    ||| c == '*' || c == '+' || c == '-' || c == '.' || c == '^' || c == '_' || c == '`'
    ||| c == '|' || c == '~'
    ||| ('0' <= c && c <= '9')
    ||| ('a' <= c && c <= 'z')
}

/// A name that `HeaderName::from_static` accepts.
pub open spec fn is_header_name(s: Seq<char>) -> bool {
    &&& 0 < s.len() <= 0xffff
    &&& forall|i: int| 0 <= i < s.len() ==> is_header_name_char(#[trigger] s[i])
}

/// A value that `HeaderValue::from_static` accepts: visible ASCII, space and tab.
pub open spec fn is_header_value(s: Seq<char>) -> bool {
    forall|i: int| 0 <= i < s.len() ==> ((' ' <= #[trigger] s[i] && s[i] <= '~') || s[i] == '\t')
}

/// The bytes of an ASCII text.
pub open spec fn ascii_bytes(s: Seq<char>) -> Seq<u8> {
    Seq::new(s.len(), |i: int| s[i] as u8)
}

/// The most distinct names that a header map may end up with after an
/// insertion or a merge here. A `HeaderMap` fails to grow once its table would
/// pass 2^15 slots; in its collision-recovery state it doubles a table of 2^15
/// slots as soon as five times its names reach 2^15, which first happens when
/// a 6554th name is about to be added.
pub const MAX_HEADER_KEYS: usize = 6554;

/// `HeaderMap::new`: the new map holds nothing.
#[verifier::external_body]
pub(crate) fn header_map_new() -> (map: http::HeaderMap<http::HeaderValue>)
    ensures
        header_entries(map) =~= Map::empty(),
{
    http::HeaderMap::new()
}

/// `HeaderMap::keys_len`: the number of distinct names in the map, which is
/// zero exactly when the map holds nothing.
#[verifier::external_body]
pub(crate) fn header_map_keys_len(m: &http::HeaderMap<http::HeaderValue>) -> (count: usize)
    ensures
        count == header_entries(*m).dom().len(),
        (count == 0) == (header_entries(*m) == Map::<Seq<char>, Seq<Seq<u8>>>::empty()),
{
    m.keys_len()
}

/// `HeaderMap::append`, with the name and the value converted by
/// `HeaderName::from_static` and `HeaderValue::from_static`: the value goes
/// after the values already stored under the name; the result tells whether
/// the name was present before.
#[verifier::external_body]
pub(crate) fn header_map_append(
    m: &mut http::HeaderMap<http::HeaderValue>,
    name: &'static str,
    value: &'static str,
) -> (existed: bool)
    requires
        is_header_name(name@),
        is_header_value(value@),
        header_entries(*old(m)).dom().len() < MAX_HEADER_KEYS,
    ensures
        existed == header_entries(*old(m)).dom().contains(name@),
        header_entries(*final(m)) == header_entries(*old(m)).insert(
            name@,
            if existed {
                header_entries(*old(m))[name@].push(ascii_bytes(value@))
            } else {
                seq![ascii_bytes(value@)]
            },
        ),
{
    m.append(http::HeaderName::from_static(name), http::HeaderValue::from_static(value))
}

/// `Extend<(Option<HeaderName>, T)>::extend` of `HeaderMap` with another map:
/// every name of `other` ends up with exactly the values `other` holds for it,
/// and every other name keeps its values.
#[verifier::external_body]
pub(crate) fn header_map_extend(
    m: &mut http::HeaderMap<http::HeaderValue>,
    other: http::HeaderMap<http::HeaderValue>,
)
    requires
        header_entries(*old(m)).dom().len() + header_entries(other).dom().len() <= MAX_HEADER_KEYS,
    ensures
        header_entries(*final(m)) == header_entries(*old(m)).union_prefer_right(header_entries(other)),
{
    m.extend(other)
}

/// `Extensions::extend`: every value of `other` is added, replacing the value
/// of the same type in `e`; values of other types in `e` stay.
#[verifier::external_body]
pub(crate) fn extensions_extend(e: &mut http::Extensions, other: http::Extensions)
    ensures
        extension_entries(*final(e)) == extension_entries(*old(e)).union_prefer_right(
            extension_entries(other),
        ),
{
    e.extend(other)
}

/// The parts of a response head that merging two heads changes.
pub struct HeadParts {
    pub headers: http::HeaderMap<http::HeaderValue>,
    pub extensions: http::Extensions,
}

/// Whether two heads can be merged: the merged-in head holds no headers, so
/// the target's header map is left alone, or the two together hold few enough
/// names.
pub open spec fn can_merge(target: &HeadParts, other: &HeadParts) -> bool {
    ||| header_entries(other.headers) == Map::<Seq<char>, Seq<Seq<u8>>>::empty()
    ||| header_entries(target.headers).dom().len() + header_entries(other.headers).dom().len()
        <= MAX_HEADER_KEYS
}

/// Merges the head of a converted response into the head of the gRPC
/// response it came from: a header of `other` replaces all values of the same
/// name in `target`, and an extension of `other` replaces the one of the same
/// type; the other headers and extensions of `target` stay.
pub fn merge_heads(target: &mut HeadParts, other: HeadParts)
    requires
        can_merge(old(target), &other),
    ensures
        header_entries(final(target).headers) == header_entries(old(target).headers).union_prefer_right(
            header_entries(other.headers),
        ),
        extension_entries(final(target).extensions) == extension_entries(
            old(target).extensions,
        ).union_prefer_right(extension_entries(other.extensions)),
{
    let HeadParts { headers, extensions } = other;
    extensions_extend(&mut target.extensions, extensions);
    if header_map_keys_len(&headers) == 0 {
        proof {
            merge_without_headers_keeps_headers(header_entries(target.headers));
        }
    } else {
        header_map_extend(&mut target.headers, headers);
    }
}

/// Merges `other` into `target` as `merge_heads` does when the two heads can
/// be merged, and tells whether it did; otherwise `target` stays as it was.
pub fn try_merge_heads(target: &mut HeadParts, other: HeadParts) -> (merged: bool)
    ensures
        merged == can_merge(old(target), &other),
        merged ==> header_entries(final(target).headers) == header_entries(
            old(target).headers,
        ).union_prefer_right(header_entries(other.headers)),
        merged ==> extension_entries(final(target).extensions) == extension_entries(
            old(target).extensions,
        ).union_prefer_right(extension_entries(other.extensions)),
        !merged ==> *final(target) == *old(target),
{
    let own_keys = header_map_keys_len(&target.headers);
    let other_keys = header_map_keys_len(&other.headers);
    if other_keys == 0 || (own_keys <= MAX_HEADER_KEYS && other_keys <= MAX_HEADER_KEYS - own_keys) {
        merge_heads(target, other);
        true
    } else {
        false
    }
}

/// After a merge, a header name that the merged-in head holds has exactly
/// the values that head holds for it, and every other name keeps the values it
/// had.
pub proof fn merged_headers_by_name(
    target: Map<Seq<char>, Seq<Seq<u8>>>,
    other: Map<Seq<char>, Seq<Seq<u8>>>,
    name: Seq<char>,
)
    ensures
        other.dom().contains(name) ==> target.union_prefer_right(other)[name] == other[name],
        !other.dom().contains(name) ==> (target.union_prefer_right(other).dom().contains(name)
            <==> target.dom().contains(name)),
        !other.dom().contains(name) && target.dom().contains(name) ==> target.union_prefer_right(
            other,
        )[name] == target[name],
{
}

/// Merging in a head that holds no headers leaves the headers as they were.
pub proof fn merge_without_headers_keeps_headers(target: Map<Seq<char>, Seq<Seq<u8>>>)
    ensures
        target.union_prefer_right(Map::empty()) == target,
{
    assert(target.union_prefer_right(Map::empty()) =~= target);
}

/// After a merge, every extension of the target whose type the merged-in
/// head does not hold stays with its value, and every extension of the
/// merged-in head is present with its value.
pub proof fn merged_extensions_by_type(target: Map<int, int>, other: Map<int, int>, key: int)
    ensures
        target.dom().contains(key) && !other.dom().contains(key) ==> target.union_prefer_right(
            other,
        ).dom().contains(key) && target.union_prefer_right(other)[key] == target[key],
        other.dom().contains(key) ==> target.union_prefer_right(other).dom().contains(key)
            && target.union_prefer_right(other)[key] == other[key],
{
}

/// Merging in a head that holds no extensions keeps every extension of the
/// target with its value.
pub proof fn merge_without_extensions_keeps_extensions(target: Map<int, int>)
    ensures
        target.union_prefer_right(Map::empty()) == target,
{
    assert(target.union_prefer_right(Map::empty()) =~= target);
}

} // verus!
