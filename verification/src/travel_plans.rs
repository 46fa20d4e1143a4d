//! Plans and their items: the types, and the operations on them.

use vstd::prelude::*;
use vstd::string::StringExecFns;
use crate::db::{AppState, AppStateView};
use crate::error::PlannerError;
use crate::outcome::{
    attach_items, item_created, item_updated, listed_plans, plan_created, plan_found,
    plan_updated, plans_listed, readable, removed, views,
};
use crate::text::{
    copy_opt, decimal, opt_text, signed_decimal, write_decimal, write_signed_decimal,
};

verus! {

/// One entry of a plan: a reference to a place, an accommodation, a
/// restaurant or anything else the caller tags it as. Nothing checks that
/// `entity_id` names a row of the kind that `entity_type` says.
#[derive(Debug, PartialEq, Eq)]
pub struct PlanItem {
    pub id: Option<i64>,
    pub plan_id: i64,
    pub entity_type: String,
    pub entity_id: i64,
    pub visit_date: Option<String>,
    pub notes: Option<String>,
}

/// A plan item as a value: its fields, every string as its text.
pub struct PlanItemView {
    pub id: Option<i64>,
    pub plan_id: i64,
    pub entity_type: Seq<char>,
    pub entity_id: i64,
    pub visit_date: Option<Seq<char>>,
    pub notes: Option<Seq<char>>,
}

impl DeepView for PlanItem {
    type V = PlanItemView;

    open spec fn deep_view(&self) -> PlanItemView {
        PlanItemView {
            id: self.id,
            plan_id: self.plan_id,
            entity_type: self.entity_type@,
            entity_id: self.entity_id,
            visit_date: opt_text(self.visit_date),
            notes: opt_text(self.notes),
        }
    }
}

impl View for PlanItem {
    type V = PlanItemView;

    open spec fn view(&self) -> PlanItemView {
        self.deep_view()
    }
}

impl Clone for PlanItem {
    fn clone(&self) -> (r: Self)
        ensures
            r == *self,
    {
        PlanItem {
            id: self.id,
            plan_id: self.plan_id,
            entity_type: self.entity_type.clone(),
            entity_id: self.entity_id,
            visit_date: copy_opt(&self.visit_date),
            notes: copy_opt(&self.notes),
        }
    }
}

/// What a caller supplies to add an item to a plan or to rewrite one: the
/// item without its identity and without its owner.
#[derive(Debug, PartialEq, Eq)]
pub struct PlanItemRequest {
    pub entity_type: String,
    pub entity_id: i64,
    pub visit_date: Option<String>,
    pub notes: Option<String>,
}

/// A plan item request as a value.
pub struct PlanItemRequestView {
    pub entity_type: Seq<char>,
    pub entity_id: i64,
    pub visit_date: Option<Seq<char>>,
    pub notes: Option<Seq<char>>,
}

impl PlanItemRequestView {
    /// The item that this request describes once it has an identity and an
    /// owning plan.
    pub open spec fn item(self, id: i64, plan_id: i64) -> PlanItemView {
        PlanItemView {
            id: Some(id),
            plan_id,
            entity_type: self.entity_type,
            entity_id: self.entity_id,
            visit_date: self.visit_date,
            notes: self.notes,
        }
    }
}

impl DeepView for PlanItemRequest {
    type V = PlanItemRequestView;

    open spec fn deep_view(&self) -> PlanItemRequestView {
        PlanItemRequestView {
            entity_type: self.entity_type@,
            entity_id: self.entity_id,
            visit_date: opt_text(self.visit_date),
            notes: opt_text(self.notes),
        }
    }
}

impl View for PlanItemRequest {
    type V = PlanItemRequestView;

    open spec fn view(&self) -> PlanItemRequestView {
        self.deep_view()
    }
}

impl Clone for PlanItemRequest {
    fn clone(&self) -> (r: Self)
        ensures
            r == *self,
    {
        PlanItemRequest {
            entity_type: self.entity_type.clone(),
            entity_id: self.entity_id,
            visit_date: copy_opt(&self.visit_date),
            notes: copy_opt(&self.notes),
        }
    }
}

/// A travel plan. `items` is present only on a plan that was fetched by its
/// id; a listing, a creation and an update leave it absent.
#[derive(Debug, PartialEq, Eq)]
pub struct TravelPlan {
    pub id: Option<i64>,
    pub name: String,
    pub start_date: Option<String>,
    pub end_date: Option<String>,
    pub items: Option<Vec<PlanItem>>,
}

/// A travel plan as a value.
pub struct TravelPlanView {
    pub id: Option<i64>,
    pub name: Seq<char>,
    pub start_date: Option<Seq<char>>,
    pub end_date: Option<Seq<char>>,
    pub items: Option<Seq<PlanItemView>>,
}

impl TravelPlanView {
    /// The name and the two dates of this plan under the identity `id`,
    /// without items.
    pub open spec fn metadata(self, id: i64) -> TravelPlanView {
        TravelPlanView {
            id: Some(id),
            name: self.name,
            start_date: self.start_date,
            end_date: self.end_date,
            items: None,
        }
    }

    /// This plan with `items` as its items.
    pub open spec fn with_items(self, items: Seq<PlanItemView>) -> TravelPlanView {
        TravelPlanView {
            id: self.id,
            name: self.name,
            start_date: self.start_date,
            end_date: self.end_date,
            items: Some(items),
        }
    }

    /// This plan with its items left out.
    pub open spec fn without_items(self) -> TravelPlanView {
        TravelPlanView {
            id: self.id,
            name: self.name,
            start_date: self.start_date,
            end_date: self.end_date,
            items: None,
        }
    }
}

impl DeepView for TravelPlan {
    type V = TravelPlanView;

    open spec fn deep_view(&self) -> TravelPlanView {
        TravelPlanView {
            id: self.id,
            name: self.name@,
            start_date: opt_text(self.start_date),
            end_date: opt_text(self.end_date),
            items: self.items.deep_view(),
        }
    }
}

impl View for TravelPlan {
    type V = TravelPlanView;

    open spec fn view(&self) -> TravelPlanView {
        self.deep_view()
    }
}

/// A copy of a list of plan items.
pub fn copy_items(items: &Vec<PlanItem>) -> (r: Vec<PlanItem>)
    ensures
        r@ == items@,
{
    let mut copy: Vec<PlanItem> = Vec::new();
    let mut i: usize = 0;
    while i < items.len()
        invariant
            i <= items.len(),
            copy@ == items@.take(i as int),
        decreases items.len() - i,
    {
        copy.push(items[i].clone());
        i += 1;
    }
    copy
}

impl Clone for TravelPlan {
    fn clone(&self) -> (r: Self)
        ensures
            r@ == self@,
    {
        let items = match &self.items {
            Some(list) => Some(copy_items(list)),
            None => None,
        };
        TravelPlan {
            id: self.id,
            name: self.name.clone(),
            start_date: copy_opt(&self.start_date),
            end_date: copy_opt(&self.end_date),
            items,
        }
    }
}

/// Every plan without its items, and how many plans the storage counted.
#[derive(Debug, PartialEq, Eq)]
pub struct PlanListing {
    pub plans: Vec<TravelPlan>,
    pub total: i64,
}

/// The range that a listing of `shown` plans out of `total` reports: from
/// the first plan to the last one shown, and the total behind a slash. A
/// listing that shows nothing reports the range from 0 to 0.
pub open spec fn range_text(shown: nat, total: int) -> Seq<char> {
    "plans 0-"@ + decimal(
        if shown == 0 {
            0nat
        } else {
            (shown - 1) as nat
        },
    ) + "/"@ + signed_decimal(total)
}

impl PlanListing {
    /// The value of the range header that goes with this listing.
    pub fn content_range(&self) -> (s: String)
        ensures
            s@ == range_text(self.plans.len() as nat, self.total as int),
    {
        let last: u64 = if self.plans.len() == 0 {
            0
        } else {
            (self.plans.len() - 1) as u64
        };
        let mut s = "plans 0-".to_owned();
        s.append(write_decimal(last).as_str());
        s.append("/");
        s.append(write_signed_decimal(self.total).as_str());
        s
    }
}

/// Lists every plan without its items, in insertion order, together with
/// the number of plans.
pub fn get_plans(data: &AppState) -> (r: Result<PlanListing, PlannerError>)
    requires
        data.wf(),
    ensures
        r is Ok,
        r->Ok_0.plans.deep_view() == data@.plans.plans,
        r->Ok_0.total == data@.plans.plans.len(),
{
    let rows = data.plans.select_plans();
    let count = data.plans.count_plans();
    plans_listed(rows, count)
}

/// Creates a plan from the name and dates of `plan`; an id or items in
/// `plan` are ignored. The plan that comes back carries the id it was
/// given and no items.
pub fn add_plan(data: &mut AppState, plan: TravelPlan) -> (r: Result<TravelPlan, PlannerError>)
    requires
        old(data).wf(),
    ensures
        final(data).wf(),
        old(data)@.plans.can_insert_plan() ==> {
            &&& r matches Ok(created)
            &&& created@ == plan@.metadata(old(data)@.plans.next_plan_id())
            &&& final(data)@ == (AppStateView {
                plans: old(data)@.plans.insert_plan(plan@),
                ..old(data)@
            })
            &&& final(data)@.plans.has_plan(old(data)@.plans.next_plan_id())
        },
        !old(data)@.plans.can_insert_plan() ==> {
            &&& r == Err::<TravelPlan, PlannerError>(PlannerError::PersistenceError)
            &&& final(data)@ == old(data)@
        },
{
    proof {
        if data@.plans.can_insert_plan() {
            data@.plans.lemma_insert_plan(plan@);
        }
    }
    let outcome = data.plans.insert_plan(&plan);
    plan_created(plan, outcome)
}

/// Fetches the plan `plan_id` with its items in insertion order. The plan
/// row and its items are read under one borrow of the state, so no other
/// operation can come between the two reads.
pub fn get_plan(data: &AppState, plan_id: i64) -> (r: Result<TravelPlan, PlannerError>)
    requires
        data.wf(),
    ensures
        match data@.plans.fetch_plan(plan_id) {
            Some(stored) => r matches Ok(plan) && plan@ == stored,
            None => r == Err::<TravelPlan, PlannerError>(PlannerError::NotFound),
        },
{
    let plan = match plan_found(data.plans.select_plan(plan_id)) {
        Ok(plan) => plan,
        Err(e) => {
            return Err(e);
        },
    };
    let rows = data.plans.select_items(plan_id);
    Ok(attach_items(plan, rows))
}

/// Replaces the name and dates of the plan `plan_id` by those of `plan`.
/// The plan's items stay as they are and are not part of the answer.
pub fn update_plan(data: &mut AppState, plan_id: i64, plan: TravelPlan) -> (r: Result<
    TravelPlan,
    PlannerError,
>)
    requires
        old(data).wf(),
    ensures
        final(data).wf(),
        final(data)@ == (AppStateView {
            plans: old(data)@.plans.update_plan(plan_id, plan@),
            ..old(data)@
        }),
        old(data)@.plans.has_plan(plan_id) ==> {
            &&& r matches Ok(updated)
            &&& updated@ == plan@.metadata(plan_id)
        },
        !old(data)@.plans.has_plan(plan_id) ==> {
            &&& r == Err::<TravelPlan, PlannerError>(PlannerError::NotFound)
            &&& final(data)@ == old(data)@
        },
{
    proof {
        data@.plans.lemma_update_plan(plan_id, plan@);
    }
    let outcome = data.plans.update_plan(plan_id, &plan);
    plan_updated(plan_id, plan, outcome)
}

/// Deletes the plan `plan_id` and every item that belongs to it.
pub fn delete_plan(data: &mut AppState, plan_id: i64) -> (r: Result<(), PlannerError>)
    requires
        old(data).wf(),
    ensures
        final(data).wf(),
        final(data)@ == (AppStateView {
            plans: old(data)@.plans.delete_plan(plan_id),
            ..old(data)@
        }),
        old(data)@.plans.has_plan(plan_id) ==> r == Ok::<(), PlannerError>(()),
        !old(data)@.plans.has_plan(plan_id) ==> {
            &&& r == Err::<(), PlannerError>(PlannerError::NotFound)
            &&& final(data)@ == old(data)@
        },
{
    proof {
        data@.plans.lemma_delete_plan(plan_id);
    }
    removed(data.plans.delete_plan(plan_id))
}

/// Adds what `item` describes to the plan `plan_id`. Whether `entity_id`
/// names anything is not looked at. An item for a plan that is not stored
/// is refused by the storage and comes back as a persistence error.
pub fn add_plan_item(data: &mut AppState, plan_id: i64, item: PlanItemRequest) -> (r: Result<
    PlanItem,
    PlannerError,
>)
    requires
        old(data).wf(),
    ensures
        final(data).wf(),
        old(data)@.plans.can_insert_item(plan_id) ==> {
            &&& r matches Ok(created)
            &&& created@ == item@.item(old(data)@.plans.next_item_id(), plan_id)
            &&& final(data)@ == (AppStateView {
                plans: old(data)@.plans.insert_item(plan_id, item@),
                ..old(data)@
            })
            &&& final(data)@.plans.has_item(plan_id, old(data)@.plans.next_item_id())
        },
        !old(data)@.plans.can_insert_item(plan_id) ==> {
            &&& r == Err::<PlanItem, PlannerError>(PlannerError::PersistenceError)
            &&& final(data)@ == old(data)@
        },
{
    proof {
        if data@.plans.can_insert_item(plan_id) {
            data@.plans.lemma_insert_item(plan_id, item@);
        }
    }
    let outcome = data.plans.insert_item(plan_id, &item);
    item_created(plan_id, item, outcome)
}

/// Replaces the item `item_id` of the plan `plan_id` by what `item`
/// describes. Both keys have to match: an item of another plan is not
/// found.
pub fn update_plan_item(
    data: &mut AppState,
    plan_id: i64,
    item_id: i64,
    item: PlanItemRequest,
) -> (r: Result<PlanItem, PlannerError>)
    requires
        old(data).wf(),
    ensures
        final(data).wf(),
        final(data)@ == (AppStateView {
            plans: old(data)@.plans.update_item(plan_id, item_id, item@),
            ..old(data)@
        }),
        old(data)@.plans.has_item(plan_id, item_id) ==> {
            &&& r matches Ok(updated)
            &&& updated@ == item@.item(item_id, plan_id)
        },
        !old(data)@.plans.has_item(plan_id, item_id) ==> {
            &&& r == Err::<PlanItem, PlannerError>(PlannerError::NotFound)
            &&& final(data)@ == old(data)@
        },
{
    proof {
        data@.plans.lemma_update_item(plan_id, item_id, item@);
    }
    let outcome = data.plans.update_item(plan_id, item_id, &item);
    item_updated(plan_id, item_id, item, outcome)
}

/// Deletes the item `item_id` of the plan `plan_id`. Both keys have to
/// match.
pub fn delete_plan_item(data: &mut AppState, plan_id: i64, item_id: i64) -> (r: Result<
    (),
    PlannerError,
>)
    requires
        old(data).wf(),
    ensures
        final(data).wf(),
        final(data)@ == (AppStateView {
            plans: old(data)@.plans.delete_item(plan_id, item_id),
            ..old(data)@
        }),
        old(data)@.plans.has_item(plan_id, item_id) ==> r == Ok::<(), PlannerError>(()),
        !old(data)@.plans.has_item(plan_id, item_id) ==> {
            &&& r == Err::<(), PlannerError>(PlannerError::NotFound)
            &&& final(data)@ == old(data)@
        },
{
    proof {
        data@.plans.lemma_delete_item(plan_id, item_id);
    }
    removed(data.plans.delete_item(plan_id, item_id))
}

} // verus!
