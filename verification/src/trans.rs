//! The tag translation table: what to show for a namespace and for a tag.
//! A name that the table does not hold is shown as it is.

use crate::table::{Key, Table};
use vstd::prelude::*;

verus! {

/// A tag as the catalog writes it, under its namespace.
pub struct TagKey {
    pub namespace: String,
    pub raw: String,
}

impl View for TagKey {
    type V = (Seq<char>, Seq<char>);

    open spec fn view(&self) -> (Seq<char>, Seq<char>) {
        (self.namespace@, self.raw@)
    }
}

impl Key for TagKey {
    fn same(&self, other: &Self) -> (b: bool) {
        self.namespace == other.namespace && self.raw == other.raw
    }
}

pub struct EhTagTransDB {
    namespaces: Table<String, String>,
    tags: Table<TagKey, String>,
}

pub struct TransView {
    /// The name to show for each namespace.
    pub namespaces: Map<Seq<char>, Seq<char>>,
    /// The name to show for each tag, by namespace and tag.
    pub tags: Map<(Seq<char>, Seq<char>), Seq<char>>,
}

impl TransView {
    /// What to show for a namespace.
    pub open spec fn namespace_name(self, namespace: Seq<char>) -> Seq<char> {
        if self.namespaces.dom().contains(namespace) {
            self.namespaces[namespace]
        } else {
            namespace
        }
    }

    /// What to show for a tag of a namespace.
    pub open spec fn tag_name(self, namespace: Seq<char>, raw: Seq<char>) -> Seq<char> {
        if self.tags.dom().contains((namespace, raw)) {
            self.tags[(namespace, raw)]
        } else {
            raw
        }
    }
}

impl View for EhTagTransDB {
    type V = TransView;

    closed spec fn view(&self) -> TransView {
        TransView { namespaces: self.namespaces@, tags: self.tags@ }
    }
}

impl EhTagTransDB {
    pub closed spec fn wf(&self) -> bool {
        self.namespaces.wf() && self.tags.wf()
    }

    /// The table that translates nothing.
    pub fn new() -> (db: Self)
        ensures
            db.wf(),
            db@.namespaces == Map::<Seq<char>, Seq<char>>::empty(),
            db@.tags == Map::<(Seq<char>, Seq<char>), Seq<char>>::empty(),
    {
        EhTagTransDB { namespaces: Table::new(), tags: Table::new() }
    }

    /// Sets what to show for a namespace.
    pub fn set_namespace(&mut self, namespace: String, name: String)
        requires
            old(self).wf(),
        ensures
            final(self).wf(),
            final(self)@ == (TransView {
                namespaces: old(self)@.namespaces.insert(namespace@, name@),
                ..old(self)@
            }),
    {
        self.namespaces.put(namespace, name);
    }

    /// Sets what to show for a tag of a namespace.
    pub fn set_tag(&mut self, namespace: String, raw: String, name: String)
        requires
            old(self).wf(),
        ensures
            final(self).wf(),
            final(self)@ == (TransView {
                tags: old(self)@.tags.insert((namespace@, raw@), name@),
                ..old(self)@
            }),
    {
        self.tags.put(TagKey { namespace, raw }, name);
    }

    /// What to show for a namespace: its name in the table, or the
    /// namespace itself where the table has none.
    pub fn trans_namespace(&self, namespace: &str) -> (name: String)
        requires
            self.wf(),
        ensures
            name@ == self@.namespace_name(namespace@),
    {
        let key: String = namespace.to_owned();
        match self.namespaces.get(&key) {
            Some(name) => name.clone(),
            None => key,
        }
    }

    /// What to show for a tag: its name in the table, or the tag itself
    /// where the table has none.
    pub fn trans_raw(&self, namespace: &str, tag: &str) -> (name: String)
        requires
            self.wf(),
        ensures
            name@ == self@.tag_name(namespace@, tag@),
    {
        let key = TagKey { namespace: namespace.to_owned(), raw: tag.to_owned() };
        match self.tags.get(&key) {
            Some(name) => name.clone(),
            None => key.raw,
        }
    }
}

} // verus!
