//! The plans and their items, held in memory. Each method is one statement
//! against the two tables and reports what a storage engine would report
//! for it.

use vstd::prelude::*;
use crate::model::{item_in_plan, item_is_not, item_outside_plan, plan_lacks_id, PlanTables};
use crate::outcome::{lemma_all_readable, readable, views};
use crate::seq_facts::{lemma_filter_drops_one, lemma_filter_step};
use crate::storage::{Fetched, Inserted, Lookup, Written};
use crate::text::copy_opt;
use crate::travel_plans::{PlanItem, PlanItemRequest, PlanItemView, TravelPlan};

verus! {

/// The plan table and the item table, with the highest id that each has
/// handed out.
pub struct PlanStore {
    plans: Vec<TravelPlan>,
    items: Vec<PlanItem>,
    last_plan_id: i64,
    last_item_id: i64,
}

impl View for PlanStore {
    type V = PlanTables;

    closed spec fn view(&self) -> PlanTables {
        PlanTables {
            plans: self.plans.deep_view(),
            items: self.items.deep_view(),
            last_plan_id: self.last_plan_id as int,
            last_item_id: self.last_item_id as int,
        }
    }
}

impl PlanStore {
    /// The tables are well formed.
    pub open spec fn wf(&self) -> bool {
        self@.wf()
    }

    /// A store without plans and items.
    pub fn new() -> (store: PlanStore)
        ensures
            store@ == PlanTables::empty(),
            store.wf(),
    {
        PlanStore { plans: Vec::new(), items: Vec::new(), last_plan_id: 0, last_item_id: 0 }
    }

    /// Where the plan `id` stands in the plan table.
    fn find_plan(&self, id: i64) -> (at: Option<usize>)
        requires
            self.wf(),
        ensures
            match at {
                Some(i) => {
                    &&& i < self.plans.len()
                    &&& self@.has_plan(id)
                    &&& self@.plan_index(id) == i
                },
                None => !self@.has_plan(id),
            },
    {
        let mut i: usize = 0;
        while i < self.plans.len()
            invariant
                i <= self.plans.len(),
                self.wf(),
                forall|k: int| 0 <= k < i ==> (#[trigger] self@.plans[k]).id != Some(id),
            decreases self.plans.len() - i,
        {
            let hit = match self.plans[i].id {
                Some(k) => k == id,
                None => false,
            };
            if hit {
                proof {
                    self@.lemma_plan_unique(self@.plan_index(id), i as int);
                }
                return Some(i);
            }
            i += 1;
        }
        None
    }

    /// Where the item `item_id` of the plan `plan_id` stands in the item
    /// table.
    fn find_item(&self, plan_id: i64, item_id: i64) -> (at: Option<usize>)
        requires
            self.wf(),
        ensures
            match at {
                Some(i) => {
                    &&& i < self.items.len()
                    &&& self@.has_item(plan_id, item_id)
                    &&& self@.item_index(plan_id, item_id) == i
                },
                None => !self@.has_item(plan_id, item_id),
            },
    {
        let mut i: usize = 0;
        while i < self.items.len()
            invariant
                i <= self.items.len(),
                self.wf(),
                forall|k: int|
                    0 <= k < i ==> !((#[trigger] self@.items[k]).id == Some(item_id)
                        && self@.items[k].plan_id == plan_id),
            decreases self.items.len() - i,
        {
            let hit = match self.items[i].id {
                Some(k) => k == item_id && self.items[i].plan_id == plan_id,
                None => false,
            };
            if hit {
                proof {
                    self@.lemma_item_unique(self@.item_index(plan_id, item_id), i as int);
                }
                return Some(i);
            }
            i += 1;
        }
        None
    }

    /// Stores the name and dates of `plan` as a new plan.
    pub fn insert_plan(&mut self, plan: &TravelPlan) -> (r: Inserted)
        requires
            old(self).wf(),
        ensures
            final(self).wf(),
            old(self)@.can_insert_plan() ==> {
                &&& r == (Inserted::Row { affected: 1, id: old(self)@.next_plan_id() })
                &&& final(self)@ == old(self)@.insert_plan(plan@)
            },
            !old(self)@.can_insert_plan() ==> {
                &&& r == Inserted::Failed
                &&& final(self)@ == old(self)@
            },
    {
        if self.last_plan_id == i64::MAX {
            return Inserted::Failed;
        }
        let id = self.last_plan_id + 1;
        let row = TravelPlan {
            id: Some(id),
            name: plan.name.clone(),
            start_date: copy_opt(&plan.start_date),
            end_date: copy_opt(&plan.end_date),
            items: None,
        };
        self.plans.push(row);
        self.last_plan_id = id;
        proof {
            old(self)@.lemma_insert_plan(plan@);
            assert(self@ =~= old(self)@.insert_plan(plan@));
        }
        Inserted::Row { affected: 1, id }
    }

    /// Every stored plan, in insertion order.
    pub fn select_plans(&self) -> (rows: Vec<Fetched<TravelPlan>>)
        requires
            self.wf(),
        ensures
            rows.len() == self@.plans.len(),
            forall|k: int| 0 <= k < rows.len() ==> (#[trigger] rows[k]) is Row,
            views(readable(rows@)) == self@.plans,
    {
        let mut rows: Vec<Fetched<TravelPlan>> = Vec::new();
        let mut i: usize = 0;
        while i < self.plans.len()
            invariant
                i <= self.plans.len(),
                rows.len() == i,
                forall|k: int|
                    0 <= k < i ==> (#[trigger] rows[k]) is Row && rows[k]->Row_0@
                        == self@.plans[k],
            decreases self.plans.len() - i,
        {
            rows.push(Fetched::Row(self.plans[i].clone()));
            i += 1;
        }
        proof {
            lemma_all_readable(rows@);
        }
        rows
    }

    /// How many plans are stored.
    pub fn count_plans(&self) -> (r: Lookup<i64>)
        requires
            self.wf(),
        ensures
            r == Lookup::Found(self@.plans.len() as i64),
            self@.plans.len() <= i64::MAX,
    {
        proof {
            self@.lemma_plan_count();
        }
        Lookup::Found(self.plans.len() as i64)
    }

    /// The stored plan `id`, without items.
    pub fn select_plan(&self, id: i64) -> (r: Lookup<TravelPlan>)
        requires
            self.wf(),
        ensures
            match self@.fetch_row(id) {
                Some(stored) => r matches Lookup::Found(row) && row@ == stored,
                None => r is Missing,
            },
    {
        match self.find_plan(id) {
            Some(i) => Lookup::Found(self.plans[i].clone()),
            None => Lookup::Missing,
        }
    }

    /// The items of the plan `plan_id`, in insertion order.
    pub fn select_items(&self, plan_id: i64) -> (rows: Vec<Fetched<PlanItem>>)
        requires
            self.wf(),
        ensures
            rows.len() == self@.items_of(plan_id).len(),
            forall|k: int| 0 <= k < rows.len() ==> (#[trigger] rows[k]) is Row,
            views(readable(rows@)) == self@.items_of(plan_id),
    {
        let mut rows: Vec<Fetched<PlanItem>> = Vec::new();
        let ghost mut kept: Seq<PlanItemView> = Seq::empty();
        let mut i: usize = 0;
        proof {
            reveal(Seq::filter);
        }
        while i < self.items.len()
            invariant
                i <= self.items.len(),
                rows.len() == kept.len(),
                kept == self@.items.take(i as int).filter(item_in_plan(plan_id)),
                forall|k: int|
                    0 <= k < rows.len() ==> (#[trigger] rows[k]) is Row && rows[k]->Row_0@
                        == kept[k],
            decreases self.items.len() - i,
        {
            proof {
                lemma_filter_step(self@.items, item_in_plan(plan_id), i as int);
            }
            if self.items[i].plan_id == plan_id {
                rows.push(Fetched::Row(self.items[i].clone()));
                proof {
                    kept = kept.push(self@.items[i as int]);
                }
            }
            i += 1;
        }
        proof {
            assert(self@.items.take(self@.items.len() as int) =~= self@.items);
            lemma_all_readable(rows@);
        }
        rows
    }

    /// Gives the plan `id` the name and dates of `plan`.
    pub fn update_plan(&mut self, id: i64, plan: &TravelPlan) -> (r: Written)
        requires
            old(self).wf(),
        ensures
            final(self).wf(),
            final(self)@ == old(self)@.update_plan(id, plan@),
            r == Written::Rows(if old(self)@.has_plan(id) { 1usize } else { 0usize }),
    {
        proof {
            self@.lemma_update_plan(id, plan@);
        }
        match self.find_plan(id) {
            Some(i) => {
                let row = TravelPlan {
                    id: Some(id),
                    name: plan.name.clone(),
                    start_date: copy_opt(&plan.start_date),
                    end_date: copy_opt(&plan.end_date),
                    items: None,
                };
                self.plans.set(i, row);
                proof {
                    let before = old(self)@;
                    assert forall|k: int| 0 <= k < before.plans.len() implies (
                    #[trigger] self@.plans[k]) == before.update_plan(id, plan@).plans[k] by {
                        if k != i && before.plans[k].id == Some(id) {
                            before.lemma_plan_unique(k, i as int);
                        }
                    }
                    assert(self@ =~= before.update_plan(id, plan@));
                }
                Written::Rows(1)
            },
            None => Written::Rows(0),
        }
    }

    /// Removes the plan `id` and, with it, every item that belongs to it.
    pub fn delete_plan(&mut self, id: i64) -> (r: Written)
        requires
            old(self).wf(),
        ensures
            final(self).wf(),
            final(self)@ == old(self)@.delete_plan(id),
            r == Written::Rows(if old(self)@.has_plan(id) { 1usize } else { 0usize }),
    {
        proof {
            self@.lemma_delete_plan(id);
        }
        let at = match self.find_plan(id) {
            Some(i) => i,
            None => {
                return Written::Rows(0);
            },
        };
        let ghost before = self@;
        let mut old_items: Vec<PlanItem> = Vec::new();
        std::mem::swap(&mut self.items, &mut old_items);
        let ghost mut kept: Seq<PlanItemView> = Seq::empty();
        proof {
            reveal(Seq::filter);
        }
        let ghost all = old_items@;
        for item in it: old_items
            invariant
                it.seq() == all,
                views(all) == before.items,
                kept == before.items.take(it.index() as int).filter(item_outside_plan(id)),
                self.items.deep_view() == kept,
                self.plans == old(self).plans,
                self.last_plan_id == old(self).last_plan_id,
                self.last_item_id == old(self).last_item_id,
        {
            proof {
                lemma_filter_step(before.items, item_outside_plan(id), it.index() as int);
            }
            if item.plan_id != id {
                proof {
                    kept = kept.push(item@);
                }
                self.items.push(item);
            }
        }
        self.plans.remove(at);
        proof {
            assert(before.items.take(before.items.len() as int) =~= before.items);
            assert forall|k: int|
                0 <= k < before.plans.len() && k != at implies plan_lacks_id(id)(
                #[trigger] before.plans[k],
            ) by {
                if before.plans[k].id == Some(id) {
                    before.lemma_plan_unique(k, at as int);
                }
            }
            lemma_filter_drops_one(before.plans, plan_lacks_id(id), at as int);
            assert(self.plans.deep_view() =~= before.plans.remove(at as int));
        }
        Written::Rows(1)
    }

    /// Stores what `request` describes as a new item of the plan `plan_id`.
    /// An item whose plan is not stored is refused.
    pub fn insert_item(&mut self, plan_id: i64, request: &PlanItemRequest) -> (r: Inserted)
        requires
            old(self).wf(),
        ensures
            final(self).wf(),
            old(self)@.can_insert_item(plan_id) ==> {
                &&& r == (Inserted::Row { affected: 1, id: old(self)@.next_item_id() })
                &&& final(self)@ == old(self)@.insert_item(plan_id, request@)
            },
            !old(self)@.can_insert_item(plan_id) ==> {
                &&& r == Inserted::Failed
                &&& final(self)@ == old(self)@
            },
    {
        if self.last_item_id == i64::MAX {
            return Inserted::Failed;
        }
        if self.find_plan(plan_id).is_none() {
            return Inserted::Failed;
        }
        let id = self.last_item_id + 1;
        let row = PlanItem {
            id: Some(id),
            plan_id,
            entity_type: request.entity_type.clone(),
            entity_id: request.entity_id,
            visit_date: copy_opt(&request.visit_date),
            notes: copy_opt(&request.notes),
        };
        self.items.push(row);
        self.last_item_id = id;
        proof {
            old(self)@.lemma_insert_item(plan_id, request@);
            assert(self@ =~= old(self)@.insert_item(plan_id, request@));
        }
        Inserted::Row { affected: 1, id }
    }

    /// Replaces the item `item_id` of the plan `plan_id` by what `request`
    /// describes.
    pub fn update_item(
        &mut self,
        plan_id: i64,
        item_id: i64,
        request: &PlanItemRequest,
    ) -> (r: Written)
        requires
            old(self).wf(),
        ensures
            final(self).wf(),
            final(self)@ == old(self)@.update_item(plan_id, item_id, request@),
            r == Written::Rows(if old(self)@.has_item(plan_id, item_id) { 1usize } else { 0usize }),
    {
        proof {
            self@.lemma_update_item(plan_id, item_id, request@);
        }
        match self.find_item(plan_id, item_id) {
            Some(i) => {
                let row = PlanItem {
                    id: Some(item_id),
                    plan_id,
                    entity_type: request.entity_type.clone(),
                    entity_id: request.entity_id,
                    visit_date: copy_opt(&request.visit_date),
                    notes: copy_opt(&request.notes),
                };
                self.items.set(i, row);
                proof {
                    let before = old(self)@;
                    assert forall|k: int| 0 <= k < before.items.len() implies (
                    #[trigger] self@.items[k]) == before.update_item(
                        plan_id,
                        item_id,
                        request@,
                    ).items[k] by {
                        if k != i && before.items[k].id == Some(item_id) {
                            before.lemma_item_unique(k, i as int);
                        }
                    }
                }
                Written::Rows(1)
            },
            None => Written::Rows(0),
        }
    }

    /// Removes the item `item_id` of the plan `plan_id`.
    pub fn delete_item(&mut self, plan_id: i64, item_id: i64) -> (r: Written)
        requires
            old(self).wf(),
        ensures
            final(self).wf(),
            final(self)@ == old(self)@.delete_item(plan_id, item_id),
            r == Written::Rows(if old(self)@.has_item(plan_id, item_id) { 1usize } else { 0usize }),
    {
        proof {
            self@.lemma_delete_item(plan_id, item_id);
        }
        match self.find_item(plan_id, item_id) {
            Some(i) => {
                self.items.remove(i);
                proof {
                    let before = old(self)@;
                    assert forall|k: int|
                        0 <= k < before.items.len() && k != i implies item_is_not(
                        plan_id,
                        item_id,
                    )(#[trigger] before.items[k]) by {
                        if before.items[k].id == Some(item_id) {
                            before.lemma_item_unique(k, i as int);
                        }
                    }
                    lemma_filter_drops_one(before.items, item_is_not(plan_id, item_id), i as int);
                    assert(self.items.deep_view() =~= before.items.remove(i as int));
                }
                Written::Rows(1)
            },
            None => Written::Rows(0),
        }
    }
}

} // verus!
