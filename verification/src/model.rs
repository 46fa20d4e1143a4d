//! What the plan table and the item table hold, and how each statement
//! changes them.

use vstd::prelude::*;
use crate::seq_facts::{lemma_filter_all, lemma_filter_keeps_order, lemma_filter_keeps_passing};
use crate::travel_plans::{PlanItemRequestView, PlanItemView, TravelPlanView};

verus! {

/// Holds of the stored plans that carry the id `id`.
pub open spec fn plan_has_id(id: i64) -> spec_fn(TravelPlanView) -> bool {
    |p: TravelPlanView| p.id == Some(id)
}

/// Holds of the stored plans that carry another id than `id`.
pub open spec fn plan_lacks_id(id: i64) -> spec_fn(TravelPlanView) -> bool {
    |p: TravelPlanView| p.id != Some(id)
}

/// Holds of the items that belong to the plan `plan_id`.
pub open spec fn item_in_plan(plan_id: i64) -> spec_fn(PlanItemView) -> bool {
    |it: PlanItemView| it.plan_id == plan_id
}

/// Holds of the items that belong to another plan than `plan_id`.
pub open spec fn item_outside_plan(plan_id: i64) -> spec_fn(PlanItemView) -> bool {
    |it: PlanItemView| it.plan_id != plan_id
}

/// Holds of the item `item_id` if it belongs to the plan `plan_id`: both
/// keys have to match.
pub open spec fn item_is(plan_id: i64, item_id: i64) -> spec_fn(PlanItemView) -> bool {
    |it: PlanItemView| it.id == Some(item_id) && it.plan_id == plan_id
}

/// Holds of every item but the item `item_id` of the plan `plan_id`.
pub open spec fn item_is_not(plan_id: i64, item_id: i64) -> spec_fn(PlanItemView) -> bool {
    |it: PlanItemView| !(it.id == Some(item_id) && it.plan_id == plan_id)
}

/// Replaces the name and the dates of the plan `id` by those of `plan` and
/// leaves every other plan as it is.
pub open spec fn rewrite_plan(id: i64, plan: TravelPlanView) -> spec_fn(
    TravelPlanView,
) -> TravelPlanView {
    |p: TravelPlanView| if p.id == Some(id) { plan.metadata(id) } else { p }
}

/// Replaces the item `item_id` of the plan `plan_id` by what `request`
/// describes and leaves every other item as it is.
pub open spec fn rewrite_item(
    plan_id: i64,
    item_id: i64,
    request: PlanItemRequestView,
) -> spec_fn(PlanItemView) -> PlanItemView {
    |it: PlanItemView| if it.id == Some(item_id) && it.plan_id == plan_id {
        request.item(item_id, plan_id)
    } else {
        it
    }
}

/// The two tables behind the plan aggregate: the plans, each without its
/// items, and the items of all plans, both in the order in which the rows
/// were inserted. The two counters are the highest ids handed out so far.
#[verifier::ext_equal]
pub struct PlanTables {
    pub plans: Seq<TravelPlanView>,
    pub items: Seq<PlanItemView>,
    pub last_plan_id: int,
    pub last_item_id: int,
}

impl PlanTables {
    /// No plan, no item, no id handed out yet.
    pub open spec fn empty() -> PlanTables {
        PlanTables { plans: Seq::empty(), items: Seq::empty(), last_plan_id: 0, last_item_id: 0 }
    }

    /// Some stored plan has the id `id`.
    pub open spec fn has_plan(self, id: i64) -> bool {
        exists|i: int| 0 <= i < self.plans.len() && (#[trigger] self.plans[i]).id == Some(id)
    }

    /// Some stored item has the id `item_id` and belongs to the plan
    /// `plan_id`.
    pub open spec fn has_item(self, plan_id: i64, item_id: i64) -> bool {
        exists|i: int|
            0 <= i < self.items.len() && (#[trigger] self.items[i]).id == Some(item_id)
                && self.items[i].plan_id == plan_id
    }

    /// Every stored row has an id that was handed out, the ids of a table
    /// grow in the order in which its rows were inserted, a stored plan
    /// holds no items itself, and every item belongs to a stored plan.
    pub open spec fn wf(self) -> bool {
        &&& 0 <= self.last_plan_id <= i64::MAX
        &&& 0 <= self.last_item_id <= i64::MAX
        &&& forall|i: int|
            0 <= i < self.plans.len() ==> {
                &&& (#[trigger] self.plans[i]).id is Some
                &&& 1 <= self.plans[i].id->0 <= self.last_plan_id
                &&& self.plans[i].items is None
            }
        &&& forall|i: int, j: int|
            0 <= i < j < self.plans.len() ==> (#[trigger] self.plans[i]).id->0 < (
            #[trigger] self.plans[j]).id->0
        &&& forall|i: int|
            0 <= i < self.items.len() ==> {
                &&& (#[trigger] self.items[i]).id is Some
                &&& 1 <= self.items[i].id->0 <= self.last_item_id
                &&& self.has_plan(self.items[i].plan_id)
            }
        &&& forall|i: int, j: int|
            0 <= i < j < self.items.len() ==> (#[trigger] self.items[i]).id->0 < (
            #[trigger] self.items[j]).id->0
    }

    /// Where the plan `id` stands in the plan table, where it is stored.
    pub open spec fn plan_index(self, id: i64) -> int {
        choose|i: int| 0 <= i < self.plans.len() && (#[trigger] self.plans[i]).id == Some(id)
    }

    /// The stored plan with the id `id`, where there is one.
    pub open spec fn plan(self, id: i64) -> TravelPlanView {
        self.plans[self.plan_index(id)]
    }

    /// Where the item `item_id` of the plan `plan_id` stands in the item
    /// table, where it is stored.
    pub open spec fn item_index(self, plan_id: i64, item_id: i64) -> int {
        choose|i: int|
            0 <= i < self.items.len() && (#[trigger] self.items[i]).id == Some(item_id)
                && self.items[i].plan_id == plan_id
    }

    /// The stored plan `id` without its items, or nothing where no such
    /// plan is stored.
    pub open spec fn fetch_row(self, id: i64) -> Option<TravelPlanView> {
        if self.has_plan(id) {
            Some(self.plan(id))
        } else {
            None
        }
    }

    /// The items of the plan `plan_id`, in insertion order.
    pub open spec fn items_of(self, plan_id: i64) -> Seq<PlanItemView> {
        self.items.filter(item_in_plan(plan_id))
    }

    /// The plan `id` together with its items, or nothing where no such plan
    /// is stored.
    pub open spec fn fetch_plan(self, id: i64) -> Option<TravelPlanView> {
        if self.has_plan(id) {
            Some(self.plan(id).with_items(self.items_of(id)))
        } else {
            None
        }
    }

    /// There is still an id left for a new plan.
    pub open spec fn can_insert_plan(self) -> bool {
        self.last_plan_id < i64::MAX
    }

    /// The id that the next new plan gets.
    pub open spec fn next_plan_id(self) -> i64 {
        (self.last_plan_id + 1) as i64
    }

    /// The tables after the name and dates of `plan` were stored as a new
    /// plan.
    pub open spec fn insert_plan(self, plan: TravelPlanView) -> PlanTables {
        PlanTables {
            plans: self.plans.push(plan.metadata(self.next_plan_id())),
            items: self.items,
            last_plan_id: self.last_plan_id + 1,
            last_item_id: self.last_item_id,
        }
    }

    /// The tables after the plan `id` got the name and dates of `plan`. Its
    /// items are not touched.
    pub open spec fn update_plan(self, id: i64, plan: TravelPlanView) -> PlanTables {
        PlanTables {
            plans: self.plans.map_values(rewrite_plan(id, plan)),
            items: self.items,
            last_plan_id: self.last_plan_id,
            last_item_id: self.last_item_id,
        }
    }

    /// The tables after the plan `id` was removed, and with it every item
    /// that belonged to it.
    pub open spec fn delete_plan(self, id: i64) -> PlanTables {
        PlanTables {
            plans: self.plans.filter(plan_lacks_id(id)),
            items: self.items.filter(item_outside_plan(id)),
            last_plan_id: self.last_plan_id,
            last_item_id: self.last_item_id,
        }
    }

    /// An item can be added to the plan `plan_id`: the plan is stored, and
    /// there is still an id left for a new item.
    pub open spec fn can_insert_item(self, plan_id: i64) -> bool {
        self.has_plan(plan_id) && self.last_item_id < i64::MAX
    }

    /// The id that the next new item gets.
    pub open spec fn next_item_id(self) -> i64 {
        (self.last_item_id + 1) as i64
    }

    /// The tables after what `request` describes was stored as a new item of
    /// the plan `plan_id`.
    pub open spec fn insert_item(self, plan_id: i64, request: PlanItemRequestView) -> PlanTables {
        PlanTables {
            plans: self.plans,
            items: self.items.push(request.item(self.next_item_id(), plan_id)),
            last_plan_id: self.last_plan_id,
            last_item_id: self.last_item_id + 1,
        }
    }

    /// The tables after the item `item_id` of the plan `plan_id` was
    /// replaced by what `request` describes.
    pub open spec fn update_item(
        self,
        plan_id: i64,
        item_id: i64,
        request: PlanItemRequestView,
    ) -> PlanTables {
        PlanTables {
            plans: self.plans,
            items: self.items.map_values(rewrite_item(plan_id, item_id, request)),
            last_plan_id: self.last_plan_id,
            last_item_id: self.last_item_id,
        }
    }

    /// The tables after the item `item_id` of the plan `plan_id` was
    /// removed.
    pub open spec fn delete_item(self, plan_id: i64, item_id: i64) -> PlanTables {
        PlanTables {
            plans: self.plans,
            items: self.items.filter(item_is_not(plan_id, item_id)),
            last_plan_id: self.last_plan_id,
            last_item_id: self.last_item_id,
        }
    }
}

impl PlanTables {
    /// A stored plan's id is at least its position in the table, counted
    /// from one.
    pub proof fn lemma_plan_id_floor(self, i: int)
        requires
            self.wf(),
            0 <= i < self.plans.len(),
        ensures
            self.plans[i].id->0 >= i + 1,
        decreases i,
    {
        if i > 0 {
            self.lemma_plan_id_floor(i - 1);
            assert(self.plans[i - 1].id->0 < self.plans[i].id->0);
        }
    }

    /// There are no more plans than ids handed out.
    pub proof fn lemma_plan_count(self)
        requires
            self.wf(),
        ensures
            self.plans.len() <= self.last_plan_id,
    {
        if self.plans.len() > 0 {
            self.lemma_plan_id_floor(self.plans.len() - 1);
        }
    }

    /// At most one stored plan has a given id.
    pub proof fn lemma_plan_unique(self, i: int, j: int)
        requires
            self.wf(),
            0 <= i < self.plans.len(),
            0 <= j < self.plans.len(),
            self.plans[i].id == self.plans[j].id,
        ensures
            i == j,
    {
    }

    /// At most one stored item has a given id.
    pub proof fn lemma_item_unique(self, i: int, j: int)
        requires
            self.wf(),
            0 <= i < self.items.len(),
            0 <= j < self.items.len(),
            self.items[i].id == self.items[j].id,
        ensures
            i == j,
    {
    }

    /// Storing a new plan keeps the tables well formed; the new plan is then
    /// stored under an id that no plan had, and every plan that was stored
    /// still is.
    pub proof fn lemma_insert_plan(self, plan: TravelPlanView)
        requires
            self.wf(),
            self.can_insert_plan(),
        ensures
            self.insert_plan(plan).wf(),
            !self.has_plan(self.next_plan_id()),
            forall|id: i64|
                self.insert_plan(plan).has_plan(id) <==> (self.has_plan(id) || id
                    == self.next_plan_id()),
    {
        let after = self.insert_plan(plan);
        assert(after.plans.last().id == Some(self.next_plan_id()));
        assert forall|id: i64| self.has_plan(id) implies after.has_plan(id) by {
            assert(after.plans[self.plan_index(id)].id == Some(id));
        }
        assert forall|id: i64|
            after.has_plan(id) && id != self.next_plan_id() implies self.has_plan(id) by {
            assert(self.plans[after.plan_index(id)].id == Some(id));
        }
    }

    /// Rewriting a plan keeps the tables well formed, keeps the same plans
    /// stored, and changes nothing where no plan has that id.
    pub proof fn lemma_update_plan(self, id: i64, plan: TravelPlanView)
        requires
            self.wf(),
        ensures
            self.update_plan(id, plan).wf(),
            forall|other: i64| self.update_plan(id, plan).has_plan(other) <==> self.has_plan(other),
            !self.has_plan(id) ==> self.update_plan(id, plan) == self,
            self.has_plan(id) ==> self.update_plan(id, plan).plan(id) == plan.metadata(id),
    {
        let after = self.update_plan(id, plan);
        assert(forall|i: int|
            0 <= i < self.plans.len() ==> (#[trigger] after.plans[i]).id == self.plans[i].id);
        assert forall|other: i64| self.has_plan(other) implies after.has_plan(other) by {
            assert(after.plans[self.plan_index(other)].id == Some(other));
        }
        assert forall|other: i64| after.has_plan(other) implies self.has_plan(other) by {
            assert(self.plans[after.plan_index(other)].id == Some(other));
        }
        if !self.has_plan(id) {
            assert(after.plans =~= self.plans);
        }
    }

    /// Removing a plan keeps the tables well formed. Afterwards the plan is
    /// not stored, no item of it is left, every other plan is stored as
    /// before, and nothing has changed where no plan had that id.
    pub proof fn lemma_delete_plan(self, id: i64)
        requires
            self.wf(),
        ensures
            self.delete_plan(id).wf(),
            !self.delete_plan(id).has_plan(id),
            forall|i: int|
                0 <= i < self.delete_plan(id).items.len() ==> (#[trigger] self.delete_plan(
                    id,
                ).items[i]).plan_id != id,
            forall|other: i64|
                other != id ==> (self.delete_plan(id).has_plan(other) <==> self.has_plan(other)),
            !self.has_plan(id) ==> self.delete_plan(id) == self,
    {
        let after = self.delete_plan(id);
        lemma_filter_keeps_order(self.plans, plan_lacks_id(id));
        lemma_filter_keeps_passing(self.plans, plan_lacks_id(id));
        lemma_filter_keeps_order(self.items, item_outside_plan(id));
        assert forall|other: i64| other != id && self.has_plan(other) implies after.has_plan(
            other,
        ) by {
            assert(after.plans.contains(self.plans[self.plan_index(other)]));
        }
        if !self.has_plan(id) {
            lemma_filter_all(self.plans, plan_lacks_id(id));
            assert(forall|k: int|
                0 <= k < self.items.len() ==> self.has_plan((#[trigger] self.items[k]).plan_id));
            lemma_filter_all(self.items, item_outside_plan(id));
        }
    }

    /// Storing a new item keeps the tables well formed, and the item is then
    /// stored under an id that no item had.
    pub proof fn lemma_insert_item(self, plan_id: i64, request: PlanItemRequestView)
        requires
            self.wf(),
            self.can_insert_item(plan_id),
        ensures
            self.insert_item(plan_id, request).wf(),
            self.insert_item(plan_id, request).has_item(plan_id, self.next_item_id()),
            forall|i: int|
                0 <= i < self.items.len() ==> (#[trigger] self.items[i]).id != Some(
                    self.next_item_id(),
                ),
    {
        let after = self.insert_item(plan_id, request);
        assert(after.items.last() == request.item(self.next_item_id(), plan_id));
    }

    /// Rewriting an item keeps the tables well formed and changes nothing
    /// where no item has both keys.
    pub proof fn lemma_update_item(self, plan_id: i64, item_id: i64, request: PlanItemRequestView)
        requires
            self.wf(),
        ensures
            self.update_item(plan_id, item_id, request).wf(),
            !self.has_item(plan_id, item_id) ==> self.update_item(plan_id, item_id, request)
                == self,
    {
        let after = self.update_item(plan_id, item_id, request);
        assert(forall|i: int|
            0 <= i < self.items.len() ==> (#[trigger] after.items[i]).id == self.items[i].id
                && after.items[i].plan_id == self.items[i].plan_id);
        if !self.has_item(plan_id, item_id) {
            assert(after.items =~= self.items);
        }
    }

    /// Removing an item keeps the tables well formed. Afterwards the item is
    /// not stored, and nothing has changed where no item had both keys.
    pub proof fn lemma_delete_item(self, plan_id: i64, item_id: i64)
        requires
            self.wf(),
        ensures
            self.delete_item(plan_id, item_id).wf(),
            !self.delete_item(plan_id, item_id).has_item(plan_id, item_id),
            !self.has_item(plan_id, item_id) ==> self.delete_item(plan_id, item_id) == self,
    {
        lemma_filter_keeps_order(self.items, item_is_not(plan_id, item_id));
        if !self.has_item(plan_id, item_id) {
            lemma_filter_all(self.items, item_is_not(plan_id, item_id));
        }
    }
}

/// A statement that changes the plan tables.
pub enum Change {
    InsertPlan { plan: TravelPlanView },
    UpdatePlan { id: i64, plan: TravelPlanView },
    DeletePlan { id: i64 },
    InsertItem { plan_id: i64, request: PlanItemRequestView },
    UpdateItem { plan_id: i64, item_id: i64, request: PlanItemRequestView },
    DeleteItem { plan_id: i64, item_id: i64 },
}

impl PlanTables {
    /// The tables after one statement. An insert that the tables refuse
    /// leaves them as they are.
    pub open spec fn apply(self, change: Change) -> PlanTables {
        match change {
            Change::InsertPlan { plan } => if self.can_insert_plan() {
                self.insert_plan(plan)
            } else {
                self
            },
            Change::UpdatePlan { id, plan } => self.update_plan(id, plan),
            Change::DeletePlan { id } => self.delete_plan(id),
            Change::InsertItem { plan_id, request } => if self.can_insert_item(plan_id) {
                self.insert_item(plan_id, request)
            } else {
                self
            },
            Change::UpdateItem { plan_id, item_id, request } => self.update_item(
                plan_id,
                item_id,
                request,
            ),
            Change::DeleteItem { plan_id, item_id } => self.delete_item(plan_id, item_id),
        }
    }

    /// The tables after a run of statements, one after the other.
    pub open spec fn run(self, changes: Seq<Change>) -> PlanTables
        decreases changes.len(),
    {
        if changes.len() == 0 {
            self
        } else {
            self.run(changes.drop_last()).apply(changes.last())
        }
    }
}

} // verus!
