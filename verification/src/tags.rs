//! The tag groups of a gallery: an insertion-ordered map from a namespace to
//! the tags filed under it, kept in an `indexmap::IndexMap`.

use indexmap::IndexMap;
use vstd::prelude::*;

verus! {

/// `indexmap::IndexMap`, taken as it is. What a map of tags holds is seen
/// through [`tag_entries`] alone.
#[verifier::external_type_specification]
#[verifier::external_body]
#[verifier::reject_recursive_types(K)]
#[verifier::reject_recursive_types(V)]
#[verifier::reject_recursive_types(S)]
pub struct ExIndexMap<K, V, S>(IndexMap<K, V, S>);

/// What a tag map holds: its entries in insertion order, each a namespace
/// with the tags filed under it.
pub uninterp spec fn tag_entries(tags: IndexMap<String, Vec<String>>) -> Seq<
    (Seq<char>, Seq<Seq<char>>),
>;

/// The entries of a list of tag groups, seen as characters.
pub open spec fn group_views(groups: Seq<(String, Vec<String>)>) -> Seq<(Seq<char>, Seq<Seq<char>>)> {
    groups.map_values(|g: (String, Vec<String>)| (g.0@, g.1.deep_view()))
}

/// `IndexMap::iter`: the entries in insertion order, each copied out.
#[verifier::external_body]
pub(crate) fn tags_list(tags: &IndexMap<String, Vec<String>>) -> (groups: Vec<(String, Vec<String>)>)
    ensures
        group_views(groups@) == tag_entries(*tags),
{
    tags.iter().map(|(namespace, names)| (namespace.clone(), names.clone())).collect()
}

/// `IndexMap::clone`: a map with the same entries in the same order.
#[verifier::external_body]
pub(crate) fn tags_clone(tags: &IndexMap<String, Vec<String>>) -> (copy: IndexMap<
    String,
    Vec<String>,
>)
    ensures
        tag_entries(copy) == tag_entries(*tags),
{
    tags.clone()
}

/// Two tag maps hold the same tags: they have as many entries, and each
/// entry of the first is an entry of the second. The order of the entries
/// does not count.
pub open spec fn same_tags(
    a: Seq<(Seq<char>, Seq<Seq<char>>)>,
    b: Seq<(Seq<char>, Seq<Seq<char>>)>,
) -> bool {
    a.len() == b.len() && forall|i: int|
        0 <= i < a.len() ==> exists|j: int| 0 <= j < b.len() && #[trigger] b[j] == #[trigger] a[i]
}

/// `IndexMap`'s `==`: the two maps have the same length and every entry of
/// the first is found in the second under the same key with an equal value.
#[verifier::external_body]
pub(crate) fn tags_eq(a: &IndexMap<String, Vec<String>>, b: &IndexMap<String, Vec<String>>) -> (eq:
    bool)
    ensures
        eq == same_tags(tag_entries(*a), tag_entries(*b)),
{
    a == b
}

/// `IndexMap::new`: a map without entries.
#[verifier::external_body]
pub(crate) fn tags_new() -> (tags: IndexMap<String, Vec<String>>)
    ensures
        tag_entries(tags) == Seq::<(Seq<char>, Seq<Seq<char>>)>::empty(),
{
    IndexMap::new()
}

/// Whether the entries hold one for `namespace`.
pub open spec fn has_namespace(entries: Seq<(Seq<char>, Seq<Seq<char>>)>, namespace: Seq<char>) -> bool {
    exists|i: int| 0 <= i < entries.len() && (#[trigger] entries[i]).0 == namespace
}

/// Where the first entry for `namespace` is.
pub open spec fn namespace_at(entries: Seq<(Seq<char>, Seq<Seq<char>>)>, namespace: Seq<char>) -> int {
    choose|i: int|
        0 <= i < entries.len() && (#[trigger] entries[i]).0 == namespace && forall|j: int|
            0 <= j < i ==> (#[trigger] entries[j]).0 != namespace
}

/// The entries after `tags` were filed under `namespace`: in place of
/// what was filed under it, where the namespace has an entry, and at the
/// end otherwise.
pub open spec fn with_entry(
    entries: Seq<(Seq<char>, Seq<Seq<char>>)>,
    namespace: Seq<char>,
    tags: Seq<Seq<char>>,
) -> Seq<(Seq<char>, Seq<Seq<char>>)> {
    if has_namespace(entries, namespace) {
        entries.update(namespace_at(entries, namespace), (namespace, tags))
    } else {
        entries.push((namespace, tags))
    }
}

/// `IndexMap::insert`: where the key has an entry, the entry keeps its
/// place and gets the new value; where it has none, the pair becomes the
/// last entry.
#[verifier::external_body]
pub(crate) fn tags_insert(tags: &mut IndexMap<String, Vec<String>>, namespace: String, names: Vec<String>)
    ensures
        tag_entries(*final(tags)) == with_entry(
            tag_entries(*old(tags)),
            namespace@,
            names.deep_view(),
        ),
{
    tags.insert(namespace, names);
}

} // verus!
