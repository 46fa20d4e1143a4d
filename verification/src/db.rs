//! The state that every operation works on.

use vstd::prelude::*;
use crate::entity::{EntityKind, EntityTableView};
use crate::entity_table::EntityTable;
use crate::model::PlanTables;
use crate::plan_store::PlanStore;

verus! {

/// Everything the planner stores. An operation that reads takes it by
/// shared reference and one that writes by exclusive reference, so the
/// statements of one operation are never interleaved with another's.
pub struct AppState {
    pub plans: PlanStore,
    pub places: EntityTable,
    pub accommodations: EntityTable,
    pub restaurants: EntityTable,
}

/// The stored data as a value.
#[verifier::ext_equal]
pub struct AppStateView {
    pub plans: PlanTables,
    pub places: EntityTableView,
    pub accommodations: EntityTableView,
    pub restaurants: EntityTableView,
}

impl AppStateView {
    /// Nothing stored yet.
    pub open spec fn empty() -> AppStateView {
        AppStateView {
            plans: PlanTables::empty(),
            places: EntityTableView::empty(),
            accommodations: EntityTableView::empty(),
            restaurants: EntityTableView::empty(),
        }
    }

    /// The table that holds the records of `kind`.
    pub open spec fn table(self, kind: EntityKind) -> EntityTableView {
        match kind {
            EntityKind::Place => self.places,
            EntityKind::Accommodation => self.accommodations,
            EntityKind::Restaurant => self.restaurants,
        }
    }
}

impl View for AppState {
    type V = AppStateView;

    open spec fn view(&self) -> AppStateView {
        AppStateView {
            plans: self.plans@,
            places: self.places@,
            accommodations: self.accommodations@,
            restaurants: self.restaurants@,
        }
    }
}

impl AppState {
    /// Every table is well formed.
    pub open spec fn wf(&self) -> bool {
        &&& self.plans.wf()
        &&& self.places.wf()
        &&& self.accommodations.wf()
        &&& self.restaurants.wf()
    }

    /// The table that holds the records of `kind`.
    pub fn table(&self, kind: EntityKind) -> (table: &EntityTable)
        ensures
            table@ == self@.table(kind),
            self.wf() ==> table.wf(),
    {
        match kind {
            EntityKind::Place => &self.places,
            EntityKind::Accommodation => &self.accommodations,
            EntityKind::Restaurant => &self.restaurants,
        }
    }
}

/// A planner that stores nothing yet.
pub fn init_db() -> (data: AppState)
    ensures
        data.wf(),
        data@ == AppStateView::empty(),
{
    AppState {
        plans: PlanStore::new(),
        places: EntityTable::new(),
        accommodations: EntityTable::new(),
        restaurants: EntityTable::new(),
    }
}

} // verus!
