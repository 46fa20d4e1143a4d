//! The three kinds of leaf records that a plan item can point at, and what
//! one table of them holds.

use vstd::prelude::*;
use crate::seq_facts::{lemma_filter_all, lemma_filter_keeps_order};
use crate::text::{contains_text, copy_opt, opt_text};

verus! {

/// The kinds of leaf records, in the order in which a search walks them.
#[derive(Clone, Copy, Debug, PartialEq, Eq, Structural)]
pub enum EntityKind {
    Place,
    Accommodation,
    Restaurant,
}

/// The tag that marks a search hit as one of `kind`.
pub open spec fn kind_tag(kind: EntityKind) -> Seq<char> {
    match kind {
        EntityKind::Place => "place"@,
        EntityKind::Accommodation => "accommodation"@,
        EntityKind::Restaurant => "restaurant"@,
    }
}

impl EntityKind {
    /// The tag that marks a search hit as one of this kind.
    pub fn tag(&self) -> (s: String)
        ensures
            s@ == kind_tag(*self),
    {
        match self {
            EntityKind::Place => "place".to_owned(),
            EntityKind::Accommodation => "accommodation".to_owned(),
            EntityKind::Restaurant => "restaurant".to_owned(),
        }
    }
}

/// A stored leaf record of any kind.
#[derive(Debug, PartialEq, Eq)]
pub struct EntityRecord {
    pub id: i64,
    pub name: String,
    pub description: Option<String>,
    pub location: Option<String>,
}

/// A leaf record as a value. A record that is not stored yet has no id.
pub struct EntityView {
    pub id: Option<i64>,
    pub name: Seq<char>,
    pub description: Option<Seq<char>>,
    pub location: Option<Seq<char>>,
}

impl EntityView {
    /// This record under the identity `id`.
    pub open spec fn with_id(self, id: i64) -> EntityView {
        EntityView {
            id: Some(id),
            name: self.name,
            description: self.description,
            location: self.location,
        }
    }

    /// `fragment` stands in the name of this record or in its description.
    /// A record without a description is judged by its name alone.
    pub open spec fn mentions(self, fragment: Seq<char>) -> bool {
        contains_text(self.name, fragment) || (self.description matches Some(d) && contains_text(
            d,
            fragment,
        ))
    }
}

impl DeepView for EntityRecord {
    type V = EntityView;

    open spec fn deep_view(&self) -> EntityView {
        EntityView {
            id: Some(self.id),
            name: self.name@,
            description: opt_text(self.description),
            location: opt_text(self.location),
        }
    }
}

impl View for EntityRecord {
    type V = EntityView;

    open spec fn view(&self) -> EntityView {
        self.deep_view()
    }
}

impl Clone for EntityRecord {
    fn clone(&self) -> (r: Self)
        ensures
            r == *self,
    {
        EntityRecord {
            id: self.id,
            name: self.name.clone(),
            description: copy_opt(&self.description),
            location: copy_opt(&self.location),
        }
    }
}

/// Holds of the records that carry another id than `id`.
pub open spec fn record_lacks_id(id: i64) -> spec_fn(EntityView) -> bool {
    |e: EntityView| e.id != Some(id)
}

/// Holds of the records that mention `fragment`.
pub open spec fn record_mentions(fragment: Seq<char>) -> spec_fn(EntityView) -> bool {
    |e: EntityView| e.mentions(fragment)
}

/// Replaces the record `id` by `fields` and leaves every other record as
/// it is.
pub open spec fn rewrite_record(id: i64, fields: EntityView) -> spec_fn(EntityView) -> EntityView {
    |e: EntityView| if e.id == Some(id) { fields.with_id(id) } else { e }
}

/// One table of leaf records, in the order in which they were inserted,
/// and the highest id handed out so far.
#[verifier::ext_equal]
pub struct EntityTableView {
    pub rows: Seq<EntityView>,
    pub last_id: int,
}

impl EntityTableView {
    /// No record, no id handed out yet.
    pub open spec fn empty() -> EntityTableView {
        EntityTableView { rows: Seq::empty(), last_id: 0 }
    }

    /// Every record has an id that was handed out, and the ids grow in the
    /// order in which the records were inserted.
    pub open spec fn wf(self) -> bool {
        &&& 0 <= self.last_id <= i64::MAX
        &&& forall|i: int|
            0 <= i < self.rows.len() ==> (#[trigger] self.rows[i]).id is Some && 1
                <= self.rows[i].id->0 <= self.last_id
        &&& forall|i: int, j: int|
            0 <= i < j < self.rows.len() ==> (#[trigger] self.rows[i]).id->0 < (
            #[trigger] self.rows[j]).id->0
    }

    /// Some record has the id `id`.
    pub open spec fn has(self, id: i64) -> bool {
        exists|i: int| 0 <= i < self.rows.len() && (#[trigger] self.rows[i]).id == Some(id)
    }

    /// Where the record `id` stands in the table, where it is stored.
    pub open spec fn index_of(self, id: i64) -> int {
        choose|i: int| 0 <= i < self.rows.len() && (#[trigger] self.rows[i]).id == Some(id)
    }

    /// The record with the id `id`, where there is one.
    pub open spec fn row(self, id: i64) -> EntityView {
        self.rows[self.index_of(id)]
    }

    /// The record `id`, or nothing where no record has that id.
    pub open spec fn fetch(self, id: i64) -> Option<EntityView> {
        if self.has(id) {
            Some(self.row(id))
        } else {
            None
        }
    }

    /// There is still an id left for a new record.
    pub open spec fn can_insert(self) -> bool {
        self.last_id < i64::MAX
    }

    /// The id that the next new record gets.
    pub open spec fn next_id(self) -> i64 {
        (self.last_id + 1) as i64
    }

    /// The table after `fields` was stored as a new record.
    pub open spec fn insert(self, fields: EntityView) -> EntityTableView {
        EntityTableView {
            rows: self.rows.push(fields.with_id(self.next_id())),
            last_id: self.last_id + 1,
        }
    }

    /// The table after the record `id` was replaced by `fields`.
    pub open spec fn update(self, id: i64, fields: EntityView) -> EntityTableView {
        EntityTableView {
            rows: self.rows.map_values(rewrite_record(id, fields)),
            last_id: self.last_id,
        }
    }

    /// The table after the record `id` was removed.
    pub open spec fn delete(self, id: i64) -> EntityTableView {
        EntityTableView { rows: self.rows.filter(record_lacks_id(id)), last_id: self.last_id }
    }

    /// The records that mention `fragment`, in insertion order.
    pub open spec fn matching(self, fragment: Seq<char>) -> Seq<EntityView> {
        self.rows.filter(record_mentions(fragment))
    }

    /// At most one record has a given id.
    pub proof fn lemma_unique(self, i: int, j: int)
        requires
            self.wf(),
            0 <= i < self.rows.len(),
            0 <= j < self.rows.len(),
            self.rows[i].id == self.rows[j].id,
        ensures
            i == j,
    {
    }

    /// Storing a new record keeps the table well formed; the record is then
    /// stored as it was given, under an id that no record had.
    pub proof fn lemma_insert(self, fields: EntityView)
        requires
            self.wf(),
            self.can_insert(),
        ensures
            self.insert(fields).wf(),
            !self.has(self.next_id()),
            self.insert(fields).fetch(self.next_id()) == Some(fields.with_id(self.next_id())),
    {
        let after = self.insert(fields);
        assert(after.rows.last() == fields.with_id(self.next_id()));
        after.lemma_unique(after.index_of(self.next_id()), self.rows.len() as int);
    }

    /// Rewriting a record keeps the table well formed. The record is then
    /// stored as it was given, and nothing has changed where no record had
    /// that id.
    pub proof fn lemma_update(self, id: i64, fields: EntityView)
        requires
            self.wf(),
        ensures
            self.update(id, fields).wf(),
            self.has(id) ==> self.update(id, fields).fetch(id) == Some(fields.with_id(id)),
            !self.has(id) ==> self.update(id, fields) == self,
    {
        let after = self.update(id, fields);
        assert(forall|i: int|
            0 <= i < self.rows.len() ==> (#[trigger] after.rows[i]).id == self.rows[i].id);
        if self.has(id) {
            assert(after.rows[self.index_of(id)] == fields.with_id(id));
            after.lemma_unique(after.index_of(id), self.index_of(id));
        } else {
            assert(after.rows =~= self.rows);
        }
    }

    /// Removing a record keeps the table well formed. The record is then
    /// not stored, and nothing has changed where no record had that id.
    pub proof fn lemma_delete(self, id: i64)
        requires
            self.wf(),
        ensures
            self.delete(id).wf(),
            self.delete(id).fetch(id) is None,
            !self.has(id) ==> self.delete(id) == self,
    {
        lemma_filter_keeps_order(self.rows, record_lacks_id(id));
        if !self.has(id) {
            lemma_filter_all(self.rows, record_lacks_id(id));
        }
    }
}

} // verus!
