//! Restaurants: one of the three kinds of leaf records.

use vstd::prelude::*;
use crate::db::{AppState, AppStateView};
use crate::entity::{EntityRecord, EntityView};
use crate::entity_table::entity_fields;
use crate::error::PlannerError;
use crate::outcome::{found, record_created, record_updated, removed};
use crate::text::{copy_opt, opt_text};

verus! {

/// Somewhere to eat.
#[derive(Debug, PartialEq, Eq)]
pub struct Restaurant {
    pub id: Option<i64>,
    pub name: String,
    pub description: Option<String>,
    pub location: Option<String>,
}

impl DeepView for Restaurant {
    type V = EntityView;

    open spec fn deep_view(&self) -> EntityView {
        EntityView {
            id: self.id,
            name: self.name@,
            description: opt_text(self.description),
            location: opt_text(self.location),
        }
    }
}

impl View for Restaurant {
    type V = EntityView;

    open spec fn view(&self) -> EntityView {
        self.deep_view()
    }
}

impl Clone for Restaurant {
    fn clone(&self) -> (r: Self)
        ensures
            r == *self,
    {
        Restaurant {
            id: self.id,
            name: self.name.clone(),
            description: copy_opt(&self.description),
            location: copy_opt(&self.location),
        }
    }
}

impl Restaurant {
    /// The restaurant that a stored record holds.
    pub fn from_record(record: EntityRecord) -> (r: Restaurant)
        ensures
            r@ == record@,
    {
        Restaurant {
            id: Some(record.id),
            name: record.name,
            description: record.description,
            location: record.location,
        }
    }
}

/// Lists every restaurant, in insertion order.
pub fn get_restaurants(data: &AppState) -> (r: Result<Vec<Restaurant>, PlannerError>)
    ensures
        r is Ok,
        r->Ok_0.deep_view() == data@.restaurants.rows,
{
    let mut list: Vec<Restaurant> = Vec::new();
    let ghost all = data@.restaurants.rows;
    for record in it: data.restaurants.select_all()
        invariant
            it.seq().len() == all.len(),
            forall|k: int| 0 <= k < all.len() ==> (#[trigger] it.seq()[k])@ == all[k],
            list.len() == it.index(),
            forall|k: int| 0 <= k < list.len() ==> (#[trigger] list[k])@ == all[k],
    {
        list.push(Restaurant::from_record(record));
    }
    Ok(list)
}

/// Stores `new` as a new restaurant; an id in `new` is ignored. The restaurant
/// that comes back carries the id it was given.
pub fn add_restaurant(data: &mut AppState, new: Restaurant) -> (r: Result<
    Restaurant,
    PlannerError,
>)
    requires
        old(data).wf(),
    ensures
        final(data).wf(),
        old(data)@.restaurants.can_insert() ==> {
            &&& r matches Ok(created)
            &&& created@ == new@.with_id(old(data)@.restaurants.next_id())
            &&& final(data)@ == (AppStateView {
                restaurants: old(data)@.restaurants.insert(new@),
                ..old(data)@
            })
        },
        !old(data)@.restaurants.can_insert() ==> {
            &&& r == Err::<Restaurant, PlannerError>(PlannerError::PersistenceError)
            &&& final(data)@ == old(data)@
        },
{
    let outcome = data.restaurants.insert(&new.name, &new.description, &new.location);
    proof {
        let fields = entity_fields(new.name@, opt_text(new.description), opt_text(new.location));
        let before = old(data)@.restaurants;
        assert(before.insert(new@) =~= before.insert(fields));
    }
    match record_created(new.name, new.description, new.location, outcome) {
        Ok(record) => Ok(Restaurant::from_record(record)),
        Err(e) => Err(e),
    }
}

/// Fetches the restaurant `id`.
pub fn get_restaurant(data: &AppState, id: i64) -> (r: Result<Restaurant, PlannerError>)
    requires
        data.wf(),
    ensures
        match data@.restaurants.fetch(id) {
            Some(stored) => r matches Ok(fetched) && fetched@ == stored,
            None => r == Err::<Restaurant, PlannerError>(PlannerError::NotFound),
        },
{
    match found(data.restaurants.select(id)) {
        Ok(record) => Ok(Restaurant::from_record(record)),
        Err(e) => Err(e),
    }
}

/// Replaces the name, description and location of the restaurant `id` by
/// those of `new`.
pub fn update_restaurant(data: &mut AppState, id: i64, new: Restaurant) -> (r: Result<
    Restaurant,
    PlannerError,
>)
    requires
        old(data).wf(),
    ensures
        final(data).wf(),
        final(data)@ == (AppStateView {
            restaurants: old(data)@.restaurants.update(id, new@),
            ..old(data)@
        }),
        old(data)@.restaurants.has(id) ==> {
            &&& r matches Ok(updated)
            &&& updated@ == new@.with_id(id)
        },
        !old(data)@.restaurants.has(id) ==> {
            &&& r == Err::<Restaurant, PlannerError>(PlannerError::NotFound)
            &&& final(data)@ == old(data)@
        },
{
    proof {
        data@.restaurants.lemma_update(id, new@);
    }
    let outcome = data.restaurants.update(id, &new.name, &new.description, &new.location);
    proof {
        let fields = entity_fields(new.name@, opt_text(new.description), opt_text(new.location));
        let before = old(data)@.restaurants;
        assert(before.update(id, new@) =~= before.update(id, fields));
    }
    match record_updated(id, new.name, new.description, new.location, outcome) {
        Ok(record) => Ok(Restaurant::from_record(record)),
        Err(e) => Err(e),
    }
}

/// Deletes the restaurant `id`. Plan items that point at it stay as they
/// are.
pub fn delete_restaurant(data: &mut AppState, id: i64) -> (r: Result<(), PlannerError>)
    requires
        old(data).wf(),
    ensures
        final(data).wf(),
        final(data)@ == (AppStateView {
            restaurants: old(data)@.restaurants.delete(id),
            ..old(data)@
        }),
        old(data)@.restaurants.has(id) ==> r == Ok::<(), PlannerError>(()),
        !old(data)@.restaurants.has(id) ==> {
            &&& r == Err::<(), PlannerError>(PlannerError::NotFound)
            &&& final(data)@ == old(data)@
        },
{
    proof {
        data@.restaurants.lemma_delete(id);
    }
    removed(data.restaurants.delete(id))
}

} // verus!
