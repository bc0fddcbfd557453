//! The response header map, read and edited through hyper's `HeaderMap`.
use vstd::prelude::*;
use hyper::header::HeaderValue;
use hyper::HeaderMap;

verus! {

#[verifier::external_type_specification]
#[verifier::external_body]
pub struct ExHeaderValue(HeaderValue);

#[verifier::external_type_specification]
#[verifier::external_body]
#[verifier::reject_recursive_types(T)]
pub struct ExHeaderMap<T>(HeaderMap<T>);

/// What a header map holds: for each lower-case header name present, its
/// values in order, as bytes.
pub uninterp spec fn header_table(h: HeaderMap) -> Map<Seq<char>, Seq<Seq<u8>>>;

/// A header name written in lower case: what the map's keys look like.
pub open spec fn is_lower_name(name: Seq<char>) -> bool {
    &&& name.len() > 0
    &&& forall|i: int| 0 <= i < name.len() ==> (('a' <= #[trigger] name[i] && name[i] <= 'z') || name[i] == '-')
}

/// The values stored under `name`, none if it is absent.
pub open spec fn values_at(table: Map<Seq<char>, Seq<Seq<u8>>>, name: Seq<char>) -> Seq<Seq<u8>> {
    if table.contains_key(name) {
        table[name]
    } else {
        Seq::empty()
    }
}

/// Relies on `HeaderMap::get_all` with a `&str` key and on
/// `HeaderValue::as_bytes`: every value stored under the name, in order.
#[verifier::external_body]
pub(crate) fn header_values(h: &HeaderMap, name: &str) -> (r: Vec<Vec<u8>>)
    requires
        is_lower_name(name@),
    ensures
        r@.len() == values_at(header_table(*h), name@).len(),
        forall|i: int| 0 <= i < r@.len() ==> #[trigger] r@[i]@ == values_at(header_table(*h), name@)[i],
{
    h.get_all(name).iter().map(|v| v.as_bytes().to_vec()).collect()
}

/// Relies on `HeaderMap::remove` with a `&str` key: every value stored under
/// the name leaves the map, and nothing else changes.
#[verifier::external_body]
pub(crate) fn header_remove(h: &mut HeaderMap, name: &str)
    requires
        is_lower_name(name@),
    ensures
        header_table(*final(h)) == header_table(*old(h)).remove(name@),
{
    h.remove(name);
}

} // verus!
