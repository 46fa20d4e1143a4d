//! Accommodations: one of the three kinds of leaf records.

use vstd::prelude::*;
use crate::db::{AppState, AppStateView};
use crate::entity::{EntityRecord, EntityView};
use crate::entity_table::entity_fields;
use crate::error::PlannerError;
use crate::outcome::{found, record_created, record_updated, removed};
use crate::text::{copy_opt, opt_text};

verus! {

/// Somewhere to stay overnight.
#[derive(Debug, PartialEq, Eq)]
pub struct Accommodation {
    pub id: Option<i64>,
    pub name: String,
    pub description: Option<String>,
    pub location: Option<String>,
}

impl DeepView for Accommodation {
    type V = EntityView;

    open spec fn deep_view(&self) -> EntityView {
        EntityView {
            id: self.id,
            name: self.name@,
            description: opt_text(self.description),
            location: opt_text(self.location),
        }
    }
}

impl View for Accommodation {
    type V = EntityView;

    open spec fn view(&self) -> EntityView {
        self.deep_view()
    }
}

impl Clone for Accommodation {
    fn clone(&self) -> (r: Self)
        ensures
            r == *self,
    {
        Accommodation {
            id: self.id,
            name: self.name.clone(),
            description: copy_opt(&self.description),
            location: copy_opt(&self.location),
        }
    }
}

impl Accommodation {
    /// The accommodation that a stored record holds.
    pub fn from_record(record: EntityRecord) -> (r: Accommodation)
        ensures
            r@ == record@,
    {
        Accommodation {
            id: Some(record.id),
            name: record.name,
            description: record.description,
            location: record.location,
        }
    }
}

/// Lists every accommodation, in insertion order.
pub fn get_accommodations(data: &AppState) -> (r: Result<Vec<Accommodation>, PlannerError>)
    ensures
        r is Ok,
        r->Ok_0.deep_view() == data@.accommodations.rows,
{
    let mut list: Vec<Accommodation> = Vec::new();
    let ghost all = data@.accommodations.rows;
    for record in it: data.accommodations.select_all()
        invariant
            it.seq().len() == all.len(),
            forall|k: int| 0 <= k < all.len() ==> (#[trigger] it.seq()[k])@ == all[k],
            list.len() == it.index(),
            forall|k: int| 0 <= k < list.len() ==> (#[trigger] list[k])@ == all[k],
    {
        list.push(Accommodation::from_record(record));
    }
    Ok(list)
}

/// Stores `new` as a new accommodation; an id in `new` is ignored. The accommodation
/// that comes back carries the id it was given.
pub fn add_accommodation(data: &mut AppState, new: Accommodation) -> (r: Result<
    Accommodation,
    PlannerError,
>)
    requires
        old(data).wf(),
    ensures
        final(data).wf(),
        old(data)@.accommodations.can_insert() ==> {
            &&& r matches Ok(created)
            &&& created@ == new@.with_id(old(data)@.accommodations.next_id())
            &&& final(data)@ == (AppStateView {
                accommodations: old(data)@.accommodations.insert(new@),
                ..old(data)@
            })
        },
        !old(data)@.accommodations.can_insert() ==> {
            &&& r == Err::<Accommodation, PlannerError>(PlannerError::PersistenceError)
            &&& final(data)@ == old(data)@
        },
{
    let outcome = data.accommodations.insert(&new.name, &new.description, &new.location);
    proof {
        let fields = entity_fields(new.name@, opt_text(new.description), opt_text(new.location));
        let before = old(data)@.accommodations;
        assert(before.insert(new@) =~= before.insert(fields));
    }
    match record_created(new.name, new.description, new.location, outcome) {
        Ok(record) => Ok(Accommodation::from_record(record)),
        Err(e) => Err(e),
    }
}

/// Fetches the accommodation `id`.
pub fn get_accommodation(data: &AppState, id: i64) -> (r: Result<Accommodation, PlannerError>)
    requires
        data.wf(),
    ensures
        match data@.accommodations.fetch(id) {
            Some(stored) => r matches Ok(fetched) && fetched@ == stored,
            None => r == Err::<Accommodation, PlannerError>(PlannerError::NotFound),
        },
{
    match found(data.accommodations.select(id)) {
        Ok(record) => Ok(Accommodation::from_record(record)),
        Err(e) => Err(e),
    }
}

/// Replaces the name, description and location of the accommodation `id` by
/// those of `new`.
pub fn update_accommodation(data: &mut AppState, id: i64, new: Accommodation) -> (r: Result<
    Accommodation,
    PlannerError,
>)
    requires
        old(data).wf(),
    ensures
        final(data).wf(),
        final(data)@ == (AppStateView {
            accommodations: old(data)@.accommodations.update(id, new@),
            ..old(data)@
        }),
        old(data)@.accommodations.has(id) ==> {
            &&& r matches Ok(updated)
            &&& updated@ == new@.with_id(id)
        },
        !old(data)@.accommodations.has(id) ==> {
            &&& r == Err::<Accommodation, PlannerError>(PlannerError::NotFound)
            &&& final(data)@ == old(data)@
        },
{
    proof {
        data@.accommodations.lemma_update(id, new@);
    }
    let outcome = data.accommodations.update(id, &new.name, &new.description, &new.location);
    proof {
        let fields = entity_fields(new.name@, opt_text(new.description), opt_text(new.location));
        let before = old(data)@.accommodations;
        assert(before.update(id, new@) =~= before.update(id, fields));
    }
    match record_updated(id, new.name, new.description, new.location, outcome) {
        Ok(record) => Ok(Accommodation::from_record(record)),
        Err(e) => Err(e),
    }
}

/// Deletes the accommodation `id`. Plan items that point at it stay as they
/// are.
pub fn delete_accommodation(data: &mut AppState, id: i64) -> (r: Result<(), PlannerError>)
    requires
        old(data).wf(),
    ensures
        final(data).wf(),
        final(data)@ == (AppStateView {
            accommodations: old(data)@.accommodations.delete(id),
            ..old(data)@
        }),
        old(data)@.accommodations.has(id) ==> r == Ok::<(), PlannerError>(()),
        !old(data)@.accommodations.has(id) ==> {
            &&& r == Err::<(), PlannerError>(PlannerError::NotFound)
            &&& final(data)@ == old(data)@
        },
{
    proof {
        data@.accommodations.lemma_delete(id);
    }
    removed(data.accommodations.delete(id))
}

} // verus!
