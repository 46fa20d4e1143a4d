//! One table of leaf records, held in memory. Each method is one statement
//! against the table and reports what a storage engine would report for
//! it.

use vstd::prelude::*;
use crate::entity::{record_lacks_id, record_mentions, EntityRecord, EntityTableView, EntityView};
use crate::seq_facts::{lemma_filter_drops_one, lemma_filter_step};
use crate::storage::{Inserted, Lookup, Written};
use crate::text::{chars_of, contains_chars, copy_opt, opt_text};

verus! {

/// The name, description and location of a record that has no id yet.
pub open spec fn entity_fields(
    name: Seq<char>,
    description: Option<Seq<char>>,
    location: Option<Seq<char>>,
) -> EntityView {
    EntityView { id: None, name, description, location }
}

/// The records of one kind, with the highest id handed out so far.
pub struct EntityTable {
    rows: Vec<EntityRecord>,
    last_id: i64,
}

impl View for EntityTable {
    type V = EntityTableView;

    closed spec fn view(&self) -> EntityTableView {
        EntityTableView { rows: self.rows.deep_view(), last_id: self.last_id as int }
    }
}

/// Whether `fragment` stands in the name or in the description of `record`.
fn mentions(record: &EntityRecord, fragment: &Vec<char>) -> (r: bool)
    ensures
        r == record@.mentions(fragment@),
{
    let name = chars_of(record.name.as_str());
    if contains_chars(&name, fragment) {
        return true;
    }
    match &record.description {
        Some(text) => {
            let description = chars_of(text.as_str());
            contains_chars(&description, fragment)
        },
        None => false,
    }
}

impl EntityTable {
    /// The table is well formed.
    pub open spec fn wf(&self) -> bool {
        self@.wf()
    }

    /// A table without records.
    pub fn new() -> (table: EntityTable)
        ensures
            table@ == EntityTableView::empty(),
            table.wf(),
    {
        EntityTable { rows: Vec::new(), last_id: 0 }
    }

    /// Where the record `id` stands in the table.
    fn find(&self, id: i64) -> (at: Option<usize>)
        requires
            self.wf(),
        ensures
            match at {
                Some(i) => {
                    &&& i < self.rows.len()
                    &&& self@.has(id)
                    &&& self@.index_of(id) == i
                },
                None => !self@.has(id),
            },
    {
        let mut i: usize = 0;
        while i < self.rows.len()
            invariant
                i <= self.rows.len(),
                self.wf(),
                forall|k: int| 0 <= k < i ==> (#[trigger] self@.rows[k]).id != Some(id),
            decreases self.rows.len() - i,
        {
            if self.rows[i].id == id {
                proof {
                    self@.lemma_unique(self@.index_of(id), i as int);
                }
                return Some(i);
            }
            i += 1;
        }
        None
    }

    /// Stores a new record with the given name, description and location.
    pub fn insert(
        &mut self,
        name: &String,
        description: &Option<String>,
        location: &Option<String>,
    ) -> (r: Inserted)
        requires
            old(self).wf(),
        ensures
            final(self).wf(),
            old(self)@.can_insert() ==> {
                &&& r == (Inserted::Row { affected: 1, id: old(self)@.next_id() })
                &&& final(self)@ == old(self)@.insert(
                    entity_fields(name@, opt_text(*description), opt_text(*location)),
                )
            },
            !old(self)@.can_insert() ==> {
                &&& r == Inserted::Failed
                &&& final(self)@ == old(self)@
            },
    {
        if self.last_id == i64::MAX {
            return Inserted::Failed;
        }
        let id = self.last_id + 1;
        let row = EntityRecord {
            id,
            name: name.clone(),
            description: copy_opt(description),
            location: copy_opt(location),
        };
        self.rows.push(row);
        self.last_id = id;
        proof {
            let fields = entity_fields(name@, opt_text(*description), opt_text(*location));
            old(self)@.lemma_insert(fields);
            assert(self@ =~= old(self)@.insert(fields));
        }
        Inserted::Row { affected: 1, id }
    }

    /// Every record, in insertion order.
    pub fn select_all(&self) -> (rows: Vec<EntityRecord>)
        ensures
            rows.deep_view() == self@.rows,
    {
        let mut rows: Vec<EntityRecord> = Vec::new();
        let mut i: usize = 0;
        while i < self.rows.len()
            invariant
                i <= self.rows.len(),
                rows@ == self.rows@.take(i as int),
            decreases self.rows.len() - i,
        {
            rows.push(self.rows[i].clone());
            i += 1;
        }
        rows
    }

    /// The record `id`.
    pub fn select(&self, id: i64) -> (r: Lookup<EntityRecord>)
        requires
            self.wf(),
        ensures
            match self@.fetch(id) {
                Some(stored) => r matches Lookup::Found(row) && row@ == stored,
                None => r is Missing,
            },
    {
        match self.find(id) {
            Some(i) => Lookup::Found(self.rows[i].clone()),
            None => Lookup::Missing,
        }
    }

    /// Replaces the name, description and location of the record `id`.
    pub fn update(
        &mut self,
        id: i64,
        name: &String,
        description: &Option<String>,
        location: &Option<String>,
    ) -> (r: Written)
        requires
            old(self).wf(),
        ensures
            final(self).wf(),
            final(self)@ == old(self)@.update(
                id,
                entity_fields(name@, opt_text(*description), opt_text(*location)),
            ),
            r == Written::Rows(if old(self)@.has(id) { 1usize } else { 0usize }),
    {
        let ghost fields = entity_fields(name@, opt_text(*description), opt_text(*location));
        proof {
            self@.lemma_update(id, fields);
        }
        match self.find(id) {
            Some(i) => {
                let row = EntityRecord {
                    id,
                    name: name.clone(),
                    description: copy_opt(description),
                    location: copy_opt(location),
                };
                self.rows.set(i, row);
                proof {
                    let before = old(self)@;
                    assert forall|k: int| 0 <= k < before.rows.len() implies (
                    #[trigger] self@.rows[k]) == before.update(id, fields).rows[k] by {
                        if k != i && before.rows[k].id == Some(id) {
                            before.lemma_unique(k, i as int);
                        }
                    }
                }
                Written::Rows(1)
            },
            None => Written::Rows(0),
        }
    }

    /// Removes the record `id`.
    pub fn delete(&mut self, id: i64) -> (r: Written)
        requires
            old(self).wf(),
        ensures
            final(self).wf(),
            final(self)@ == old(self)@.delete(id),
            r == Written::Rows(if old(self)@.has(id) { 1usize } else { 0usize }),
    {
        proof {
            self@.lemma_delete(id);
        }
        match self.find(id) {
            Some(i) => {
                self.rows.remove(i);
                proof {
                    let before = old(self)@;
                    assert forall|k: int|
                        0 <= k < before.rows.len() && k != i implies record_lacks_id(id)(
                        #[trigger] before.rows[k],
                    ) by {
                        if before.rows[k].id == Some(id) {
                            before.lemma_unique(k, i as int);
                        }
                    }
                    lemma_filter_drops_one(before.rows, record_lacks_id(id), i as int);
                    assert(self.rows.deep_view() =~= before.rows.remove(i as int));
                }
                Written::Rows(1)
            },
            None => Written::Rows(0),
        }
    }

    /// The records whose name or description holds `fragment`, character
    /// for character, in insertion order.
    pub fn search(&self, fragment: &str) -> (rows: Vec<EntityRecord>)
        ensures
            rows.deep_view() == self@.matching(fragment@),
    {
        let needle = chars_of(fragment);
        let mut rows: Vec<EntityRecord> = Vec::new();
        let ghost mut kept: Seq<EntityView> = Seq::empty();
        let mut i: usize = 0;
        proof {
            reveal(Seq::filter);
        }
        while i < self.rows.len()
            invariant
                i <= self.rows.len(),
                needle@ == fragment@,
                rows.len() == kept.len(),
                kept == self@.rows.take(i as int).filter(record_mentions(fragment@)),
                forall|k: int| 0 <= k < rows.len() ==> (#[trigger] rows[k])@ == kept[k],
            decreases self.rows.len() - i,
        {
            proof {
                lemma_filter_step(self@.rows, record_mentions(fragment@), i as int);
            }
            if mentions(&self.rows[i], &needle) {
                rows.push(self.rows[i].clone());
                proof {
                    kept = kept.push(self@.rows[i as int]);
                }
            }
            i += 1;
        }
        proof {
            assert(self@.rows.take(self@.rows.len() as int) =~= self@.rows);
        }
        rows
    }
}

} // verus!
