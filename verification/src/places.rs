//! Places: one of the three kinds of leaf records.

use vstd::prelude::*;
use crate::db::{AppState, AppStateView};
use crate::entity::{EntityRecord, EntityView};
use crate::entity_table::entity_fields;
use crate::error::PlannerError;
use crate::outcome::{found, record_created, record_updated, removed};
use crate::text::{copy_opt, opt_text};

verus! {

/// A place worth a visit.
#[derive(Debug, PartialEq, Eq)]
pub struct Place {
    pub id: Option<i64>,
    pub name: String,
    pub description: Option<String>,
    pub location: Option<String>,
}

impl DeepView for Place {
    type V = EntityView;

    open spec fn deep_view(&self) -> EntityView {
        EntityView {
            id: self.id,
            name: self.name@,
            description: opt_text(self.description),
            location: opt_text(self.location),
        }
    }
}

impl View for Place {
    type V = EntityView;

    open spec fn view(&self) -> EntityView {
        self.deep_view()
    }
}

impl Clone for Place {
    fn clone(&self) -> (r: Self)
        ensures
            r == *self,
    {
        Place {
            id: self.id,
            name: self.name.clone(),
            description: copy_opt(&self.description),
            location: copy_opt(&self.location),
        }
    }
}

impl Place {
    /// The place that a stored record holds.
    pub fn from_record(record: EntityRecord) -> (r: Place)
        ensures
            r@ == record@,
    {
        Place {
            id: Some(record.id),
            name: record.name,
            description: record.description,
            location: record.location,
        }
    }
}

/// Lists every place, in insertion order.
pub fn get_places(data: &AppState) -> (r: Result<Vec<Place>, PlannerError>)
    ensures
        r is Ok,
        r->Ok_0.deep_view() == data@.places.rows,
{
    let mut list: Vec<Place> = Vec::new();
    let ghost all = data@.places.rows;
    for record in it: data.places.select_all()
        invariant
            it.seq().len() == all.len(),
            forall|k: int| 0 <= k < all.len() ==> (#[trigger] it.seq()[k])@ == all[k],
            list.len() == it.index(),
            forall|k: int| 0 <= k < list.len() ==> (#[trigger] list[k])@ == all[k],
    {
        list.push(Place::from_record(record));
    }
    Ok(list)
}

/// Stores `new` as a new place; an id in `new` is ignored. The place
/// that comes back carries the id it was given.
pub fn add_place(data: &mut AppState, new: Place) -> (r: Result<
    Place,
    PlannerError,
>)
    requires
        old(data).wf(),
    ensures
        final(data).wf(),
        old(data)@.places.can_insert() ==> {
            &&& r matches Ok(created)
            &&& created@ == new@.with_id(old(data)@.places.next_id())
            &&& final(data)@ == (AppStateView {
                places: old(data)@.places.insert(new@),
                ..old(data)@
            })
        },
        !old(data)@.places.can_insert() ==> {
            &&& r == Err::<Place, PlannerError>(PlannerError::PersistenceError)
            &&& final(data)@ == old(data)@
        },
{
    let outcome = data.places.insert(&new.name, &new.description, &new.location);
    proof {
        let fields = entity_fields(new.name@, opt_text(new.description), opt_text(new.location));
        let before = old(data)@.places;
        assert(before.insert(new@) =~= before.insert(fields));
    }
    match record_created(new.name, new.description, new.location, outcome) {
        Ok(record) => Ok(Place::from_record(record)),
        Err(e) => Err(e),
    }
}

/// Fetches the place `id`.
pub fn get_place(data: &AppState, id: i64) -> (r: Result<Place, PlannerError>)
    requires
        data.wf(),
    ensures
        match data@.places.fetch(id) {
            Some(stored) => r matches Ok(fetched) && fetched@ == stored,
            None => r == Err::<Place, PlannerError>(PlannerError::NotFound),
        },
{
    match found(data.places.select(id)) {
        Ok(record) => Ok(Place::from_record(record)),
        Err(e) => Err(e),
    }
}

/// Replaces the name, description and location of the place `id` by
/// those of `new`.
pub fn update_place(data: &mut AppState, id: i64, new: Place) -> (r: Result<
    Place,
    PlannerError,
>)
    requires
        old(data).wf(),
    ensures
        final(data).wf(),
        final(data)@ == (AppStateView {
            places: old(data)@.places.update(id, new@),
            ..old(data)@
        }),
        old(data)@.places.has(id) ==> {
            &&& r matches Ok(updated)
            &&& updated@ == new@.with_id(id)
        },
        !old(data)@.places.has(id) ==> {
            &&& r == Err::<Place, PlannerError>(PlannerError::NotFound)
            &&& final(data)@ == old(data)@
        },
{
    proof {
        data@.places.lemma_update(id, new@);
    }
    let outcome = data.places.update(id, &new.name, &new.description, &new.location);
    proof {
        let fields = entity_fields(new.name@, opt_text(new.description), opt_text(new.location));
        let before = old(data)@.places;
        assert(before.update(id, new@) =~= before.update(id, fields));
    }
    match record_updated(id, new.name, new.description, new.location, outcome) {
        Ok(record) => Ok(Place::from_record(record)),
        Err(e) => Err(e),
    }
}

/// Deletes the place `id`. Plan items that point at it stay as they
/// are.
pub fn delete_place(data: &mut AppState, id: i64) -> (r: Result<(), PlannerError>)
    requires
        old(data).wf(),
    ensures
        final(data).wf(),
        final(data)@ == (AppStateView {
            places: old(data)@.places.delete(id),
            ..old(data)@
        }),
        old(data)@.places.has(id) ==> r == Ok::<(), PlannerError>(()),
        !old(data)@.places.has(id) ==> {
            &&& r == Err::<(), PlannerError>(PlannerError::NotFound)
            &&& final(data)@ == old(data)@
        },
{
    proof {
        data@.places.lemma_delete(id);
    }
    removed(data.places.delete(id))
}

} // verus!
