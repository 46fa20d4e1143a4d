//! From what the storage reported to what the operation answers. Each
//! function here takes the outcome of the statements that an operation
//! issued and decides the operation's result; none of them touches storage.

use vstd::prelude::*;
use crate::entity::EntityRecord;
use crate::entity_table::entity_fields;
use crate::error::PlannerError;
use crate::storage::{Fetched, Inserted, Lookup, Written};
use crate::text::opt_text;
use crate::travel_plans::{
    PlanItem, PlanItemRequest, PlanItemView, PlanListing, TravelPlan, TravelPlanView,
};

verus! {

/// What one step of a walk yields: the row, if it could be read.
pub open spec fn row_of<T>() -> spec_fn(Fetched<T>) -> Option<T> {
    |r: Fetched<T>|
        match r {
            Fetched::Row(x) => Some(x),
            Fetched::Unreadable => None,
        }
}

/// The rows of a walk that could be read, in the order in which they came.
pub open spec fn readable<T>(rows: Seq<Fetched<T>>) -> Seq<T> {
    rows.filter_map(row_of::<T>())
}

/// Where every row could be read, the readable rows are all the rows.
pub proof fn lemma_all_readable<T>(rows: Seq<Fetched<T>>)
    requires
        forall|i: int| 0 <= i < rows.len() ==> (#[trigger] rows[i]) is Row,
    ensures
        readable(rows).len() == rows.len(),
        forall|i: int| 0 <= i < rows.len() ==> (#[trigger] readable(rows)[i]) == rows[i]->Row_0,
    decreases rows.len(),
{
    if rows.len() > 0 {
        let rest = rows.drop_last();
        assert(forall|i: int| 0 <= i < rest.len() ==> rest[i] == rows[i]);
        lemma_all_readable(rest);
    }
}

/// The values of a sequence of rows.
pub open spec fn views<T: DeepView>(rows: Seq<T>) -> Seq<T::V> {
    Seq::new(rows.len(), |i: int| rows[i].deep_view())
}

/// Keeps the rows that could be read and drops the others: a row that
/// fails to read does not fail the walk.
pub fn keep_readable<T>(rows: Vec<Fetched<T>>) -> (kept: Vec<T>)
    ensures
        kept@ == readable(rows@),
{
    let mut kept: Vec<T> = Vec::new();
    let ghost all = rows@;
    for r in it: rows
        invariant
            it.seq() == all,
            kept@ == readable(all.take(it.index() as int)),
    {
        proof {
            all.lemma_filter_map_take_succ(row_of::<T>(), it.index() as int);
        }
        match r {
            Fetched::Row(x) => {
                kept.push(x);
            },
            Fetched::Unreadable => {},
        }
    }
    assert(all.take(all.len() as int) =~= all);
    kept
}

/// The result of a removal. That no row was touched is the one sign that
/// the key matched nothing.
pub fn removed(outcome: Written) -> (r: Result<(), PlannerError>)
    ensures
        r == match outcome {
            Written::Rows(n) => if n == 0 {
                Err::<(), PlannerError>(PlannerError::NotFound)
            } else {
                Ok(())
            },
            Written::Failed => Err(PlannerError::PersistenceError),
        },
{
    match outcome {
        Written::Rows(n) => if n == 0 {
            Err(PlannerError::NotFound)
        } else {
            Ok(())
        },
        Written::Failed => Err(PlannerError::PersistenceError),
    }
}

/// The result of a fetch by key: the row as it was read.
pub fn found<T>(lookup: Lookup<T>) -> (r: Result<T, PlannerError>)
    ensures
        r == match lookup {
            Lookup::Found(row) => Ok::<T, PlannerError>(row),
            Lookup::Missing => Err(PlannerError::NotFound),
            Lookup::Failed => Err(PlannerError::PersistenceError),
        },
{
    match lookup {
        Lookup::Found(row) => Ok(row),
        Lookup::Missing => Err(PlannerError::NotFound),
        Lookup::Failed => Err(PlannerError::PersistenceError),
    }
}

/// The result of creating a plan: the requested name and dates under the
/// id that the storage assigned, without items.
pub fn plan_created(request: TravelPlan, outcome: Inserted) -> (r: Result<TravelPlan, PlannerError>)
    ensures
        match outcome {
            Inserted::Row { affected, id } => r matches Ok(plan) && plan@ == request@.metadata(id),
            Inserted::Failed => r == Err::<TravelPlan, PlannerError>(
                PlannerError::PersistenceError,
            ),
        },
{
    match outcome {
        Inserted::Row { affected: _, id } => Ok(
            TravelPlan {
                id: Some(id),
                name: request.name,
                start_date: request.start_date,
                end_date: request.end_date,
                items: None,
            },
        ),
        Inserted::Failed => Err(PlannerError::PersistenceError),
    }
}

/// The plans of a listing: the rows that could be read, each without
/// items.
pub open spec fn listed_plans(rows: Seq<Fetched<TravelPlan>>) -> Seq<TravelPlanView> {
    Seq::new(readable(rows).len(), |i: int| readable(rows)[i]@.without_items())
}

/// The result of listing the plans. A row that could not be read is left
/// out; a count that could not be had fails the listing.
pub fn plans_listed(rows: Vec<Fetched<TravelPlan>>, count: Lookup<i64>) -> (r: Result<
    PlanListing,
    PlannerError,
>)
    ensures
        match count {
            Lookup::Found(n) => r matches Ok(listing) && listing.total == n
                && listing.plans.deep_view() == listed_plans(rows@),
            _ => r == Err::<PlanListing, PlannerError>(PlannerError::PersistenceError),
        },
{
    let total = match count {
        Lookup::Found(n) => n,
        _ => {
            return Err(PlannerError::PersistenceError);
        },
    };
    let mut plans: Vec<TravelPlan> = Vec::new();
    let ghost all = rows@;
    for r in it: rows
        invariant
            it.seq() == all,
            plans.len() == readable(all.take(it.index() as int)).len(),
            forall|j: int|
                0 <= j < plans.len() ==> (#[trigger] plans[j])@ == readable(
                    all.take(it.index() as int),
                )[j]@.without_items(),
    {
        proof {
            all.lemma_filter_map_take_succ(row_of::<TravelPlan>(), it.index() as int);
        }
        match r {
            Fetched::Row(plan) => {
                plans.push(
                    TravelPlan {
                        id: plan.id,
                        name: plan.name,
                        start_date: plan.start_date,
                        end_date: plan.end_date,
                        items: None,
                    },
                );
            },
            Fetched::Unreadable => {},
        }
    }
    proof {
        assert(all.take(all.len() as int) =~= all);
    }
    Ok(PlanListing { plans, total })
}

/// The result of the first step of fetching a plan: the row that was
/// found, ready to take its items.
pub fn plan_found(lookup: Lookup<TravelPlan>) -> (r: Result<TravelPlan, PlannerError>)
    ensures
        match lookup {
            Lookup::Found(row) => r matches Ok(plan) && plan@ == row@.with_items(Seq::empty()),
            Lookup::Missing => r == Err::<TravelPlan, PlannerError>(PlannerError::NotFound),
            Lookup::Failed => r == Err::<TravelPlan, PlannerError>(PlannerError::PersistenceError),
        },
{
    match lookup {
        Lookup::Found(row) => {
            let plan = TravelPlan {
                id: row.id,
                name: row.name,
                start_date: row.start_date,
                end_date: row.end_date,
                items: Some(Vec::new()),
            };
            assert(plan.items->0.deep_view() =~= Seq::<PlanItemView>::empty());
            Ok(plan)
        },
        Lookup::Missing => Err(PlannerError::NotFound),
        Lookup::Failed => Err(PlannerError::PersistenceError),
    }
}

/// The second step of fetching a plan: the plan with the item rows that
/// could be read as its items. A row that could not be read is skipped and
/// does not fail the fetch.
pub fn attach_items(plan: TravelPlan, rows: Vec<Fetched<PlanItem>>) -> (r: TravelPlan)
    ensures
        r@ == plan@.with_items(views(readable(rows@))),
{
    let items = keep_readable(rows);
    let r = TravelPlan {
        id: plan.id,
        name: plan.name,
        start_date: plan.start_date,
        end_date: plan.end_date,
        items: Some(items),
    };
    r
}

/// The result of rewriting a plan: the requested name and dates under the
/// plan's id, without items.
pub fn plan_updated(plan_id: i64, request: TravelPlan, outcome: Written) -> (r: Result<
    TravelPlan,
    PlannerError,
>)
    ensures
        match outcome {
            Written::Rows(n) => if n == 0 {
                r == Err::<TravelPlan, PlannerError>(PlannerError::NotFound)
            } else {
                r matches Ok(plan) && plan@ == request@.metadata(plan_id)
            },
            Written::Failed => r == Err::<TravelPlan, PlannerError>(PlannerError::PersistenceError),
        },
{
    match outcome {
        Written::Rows(n) => if n == 0 {
            Err(PlannerError::NotFound)
        } else {
            Ok(
                TravelPlan {
                    id: Some(plan_id),
                    name: request.name,
                    start_date: request.start_date,
                    end_date: request.end_date,
                    items: None,
                },
            )
        },
        Written::Failed => Err(PlannerError::PersistenceError),
    }
}

/// The result of adding an item to a plan: what was requested, under the
/// id that the storage assigned and owned by that plan.
pub fn item_created(plan_id: i64, request: PlanItemRequest, outcome: Inserted) -> (r: Result<
    PlanItem,
    PlannerError,
>)
    ensures
        match outcome {
            Inserted::Row { affected, id } => r matches Ok(item) && item@ == request@.item(
                id,
                plan_id,
            ),
            Inserted::Failed => r == Err::<PlanItem, PlannerError>(PlannerError::PersistenceError),
        },
{
    match outcome {
        Inserted::Row { affected: _, id } => Ok(
            PlanItem {
                id: Some(id),
                plan_id,
                entity_type: request.entity_type,
                entity_id: request.entity_id,
                visit_date: request.visit_date,
                notes: request.notes,
            },
        ),
        Inserted::Failed => Err(PlannerError::PersistenceError),
    }
}

/// The result of rewriting an item: what was requested, under the two keys
/// that were given.
pub fn item_updated(plan_id: i64, item_id: i64, request: PlanItemRequest, outcome: Written) -> (r:
    Result<PlanItem, PlannerError>)
    ensures
        match outcome {
            Written::Rows(n) => if n == 0 {
                r == Err::<PlanItem, PlannerError>(PlannerError::NotFound)
            } else {
                r matches Ok(item) && item@ == request@.item(item_id, plan_id)
            },
            Written::Failed => r == Err::<PlanItem, PlannerError>(PlannerError::PersistenceError),
        },
{
    match outcome {
        Written::Rows(n) => if n == 0 {
            Err(PlannerError::NotFound)
        } else {
            Ok(
                PlanItem {
                    id: Some(item_id),
                    plan_id,
                    entity_type: request.entity_type,
                    entity_id: request.entity_id,
                    visit_date: request.visit_date,
                    notes: request.notes,
                },
            )
        },
        Written::Failed => Err(PlannerError::PersistenceError),
    }
}

/// The result of creating a leaf record: what was requested, under the id
/// that the storage assigned. A statement that ran without writing a row
/// counts as failed.
pub fn record_created(
    name: String,
    description: Option<String>,
    location: Option<String>,
    outcome: Inserted,
) -> (r: Result<EntityRecord, PlannerError>)
    ensures
        match outcome {
            Inserted::Row { affected, id } => if affected == 0 {
                r == Err::<EntityRecord, PlannerError>(PlannerError::PersistenceError)
            } else {
                r matches Ok(record) && record@ == entity_fields(
                    name@,
                    opt_text(description),
                    opt_text(location),
                ).with_id(id)
            },
            Inserted::Failed => r == Err::<EntityRecord, PlannerError>(
                PlannerError::PersistenceError,
            ),
        },
{
    match outcome {
        Inserted::Row { affected, id } => if affected == 0 {
            Err(PlannerError::PersistenceError)
        } else {
            Ok(EntityRecord { id, name, description, location })
        },
        Inserted::Failed => Err(PlannerError::PersistenceError),
    }
}

/// The result of rewriting a leaf record: what was requested, under the
/// record's id.
pub fn record_updated(
    id: i64,
    name: String,
    description: Option<String>,
    location: Option<String>,
    outcome: Written,
) -> (r: Result<EntityRecord, PlannerError>)
    ensures
        match outcome {
            Written::Rows(n) => if n == 0 {
                r == Err::<EntityRecord, PlannerError>(PlannerError::NotFound)
            } else {
                r matches Ok(record) && record@ == entity_fields(
                    name@,
                    opt_text(description),
                    opt_text(location),
                ).with_id(id)
            },
            Written::Failed => r == Err::<EntityRecord, PlannerError>(
                PlannerError::PersistenceError,
            ),
        },
{
    match outcome {
        Written::Rows(n) => if n == 0 {
            Err(PlannerError::NotFound)
        } else {
            Ok(EntityRecord { id, name, description, location })
        },
        Written::Failed => Err(PlannerError::PersistenceError),
    }
}

} // verus!
