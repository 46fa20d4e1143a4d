//! What holds across operations on the plan tables, for every well-formed
//! state. The operations of `travel_plans` answer and change the state as
//! the functions of `PlanTables` say, so each statement here is one about
//! those operations.

use vstd::prelude::*;
use crate::db::AppStateView;
use crate::entity::{record_mentions, EntityKind};
use crate::model::{item_in_plan, item_is_not, item_outside_plan, Change, PlanTables};
use crate::search::{hit, search_hits};
use crate::seq_facts::{lemma_filter_keeps_order, lemma_filter_keeps_passing, lemma_filter_none};
use crate::travel_plans::{PlanItemRequestView, PlanItemView, TravelPlanView};

verus! {

/// Holds of the items that carry the id `id`.
pub open spec fn item_has_id(id: i64) -> spec_fn(PlanItemView) -> bool {
    |it: PlanItemView| it.id == Some(id)
}

/// A plan that was just created is stored: fetching it gives the name and
/// dates it was created with, under the id it was given, and no items yet.
/// Plans that were stored before are fetched as before.
pub proof fn law_created_plan_is_fetched(tables: PlanTables, plan: TravelPlanView)
    requires
        tables.wf(),
        tables.can_insert_plan(),
    ensures
        tables.insert_plan(plan).wf(),
        tables.insert_plan(plan).fetch_plan(tables.next_plan_id()) == Some(
            plan.metadata(tables.next_plan_id()).with_items(Seq::empty()),
        ),
        forall|other: i64|
            tables.has_plan(other) ==> tables.insert_plan(plan).fetch_plan(other)
                == tables.fetch_plan(other),
{
    let id = tables.next_plan_id();
    let after = tables.insert_plan(plan);
    tables.lemma_insert_plan(plan);
    after.lemma_plan_unique(after.plan_index(id), tables.plans.len() as int);
    assert(forall|k: int|
        0 <= k < tables.items.len() ==> tables.has_plan((#[trigger] tables.items[k]).plan_id));
    lemma_filter_none(tables.items, item_in_plan(id));
    assert forall|other: i64| tables.has_plan(other) implies after.fetch_plan(other)
        == tables.fetch_plan(other) by {
        assert(after.plans[tables.plan_index(other)].id == Some(other));
        after.lemma_plan_unique(tables.plan_index(other), after.plan_index(other));
    }
}

/// Once a plan has been deleted it cannot be fetched any more, and none of
/// its items is left in the item table. This holds of every stored plan,
/// whatever was done to it between its creation and its deletion.
pub proof fn law_deleted_plan_is_gone(tables: PlanTables, plan_id: i64)
    requires
        tables.wf(),
    ensures
        tables.delete_plan(plan_id).wf(),
        tables.delete_plan(plan_id).fetch_plan(plan_id) is None,
        tables.delete_plan(plan_id).items_of(plan_id) == Seq::<PlanItemView>::empty(),
        forall|item_id: i64| !tables.delete_plan(plan_id).has_item(plan_id, item_id),
{
    tables.lemma_delete_plan(plan_id);
    lemma_filter_none(tables.delete_plan(plan_id).items, item_in_plan(plan_id));
}

/// The id of a plan is spent when the plan is deleted: no plan is stored
/// under it, no item is stored for it, and it lies among the ids that were
/// handed out.
pub open spec fn plan_is_spent(tables: PlanTables, plan_id: i64) -> bool {
    &&& 1 <= plan_id <= tables.last_plan_id
    &&& !tables.has_plan(plan_id)
    &&& forall|i: int|
        0 <= i < tables.items.len() ==> (#[trigger] tables.items[i]).plan_id != plan_id
}

/// Every statement keeps the tables well formed, and keeps a spent id
/// spent.
pub proof fn law_statement_keeps_tables_sound(tables: PlanTables, change: Change, spent: i64)
    requires
        tables.wf(),
    ensures
        tables.apply(change).wf(),
        plan_is_spent(tables, spent) ==> plan_is_spent(tables.apply(change), spent),
{
    match change {
        Change::InsertPlan { plan } => {
            if tables.can_insert_plan() {
                tables.lemma_insert_plan(plan);
            }
        },
        Change::UpdatePlan { id, plan } => {
            tables.lemma_update_plan(id, plan);
        },
        Change::DeletePlan { id } => {
            tables.lemma_delete_plan(id);
            lemma_filter_keeps_order(tables.items, item_outside_plan(id));
        },
        Change::InsertItem { plan_id, request } => {
            if tables.can_insert_item(plan_id) {
                tables.lemma_insert_item(plan_id, request);
            }
        },
        Change::UpdateItem { plan_id, item_id, request } => {
            tables.lemma_update_item(plan_id, item_id, request);
        },
        Change::DeleteItem { plan_id, item_id } => {
            tables.lemma_delete_item(plan_id, item_id);
            lemma_filter_keeps_order(tables.items, item_is_not(plan_id, item_id));
        },
    }
}

/// Whatever statements are run, the tables stay well formed.
pub proof fn law_tables_stay_well_formed(tables: PlanTables, changes: Seq<Change>)
    requires
        tables.wf(),
    ensures
        tables.run(changes).wf(),
    decreases changes.len(),
{
    if changes.len() > 0 {
        law_tables_stay_well_formed(tables, changes.drop_last());
        law_statement_keeps_tables_sound(tables.run(changes.drop_last()), changes.last(), 0);
    }
}

/// A spent id stays spent along a run of statements.
proof fn lemma_spent_along_run(tables: PlanTables, spent: i64, changes: Seq<Change>)
    requires
        tables.wf(),
        plan_is_spent(tables, spent),
    ensures
        tables.run(changes).wf(),
        plan_is_spent(tables.run(changes), spent),
    decreases changes.len(),
{
    if changes.len() > 0 {
        lemma_spent_along_run(tables, spent, changes.drop_last());
        law_statement_keeps_tables_sound(tables.run(changes.drop_last()), changes.last(), spent);
    }
}

/// A plan that was deleted stays gone: whatever statements are run after
/// its deletion, it cannot be fetched, it has no items, and no new plan
/// gets its id.
pub proof fn law_deleted_plan_stays_gone(tables: PlanTables, plan_id: i64, changes: Seq<Change>)
    requires
        tables.wf(),
        tables.has_plan(plan_id),
    ensures
        tables.delete_plan(plan_id).run(changes).fetch_plan(plan_id) is None,
        tables.delete_plan(plan_id).run(changes).items_of(plan_id) == Seq::<PlanItemView>::empty(),
        forall|item_id: i64| !tables.delete_plan(plan_id).run(changes).has_item(plan_id, item_id),
{
    let deleted = tables.delete_plan(plan_id);
    tables.lemma_delete_plan(plan_id);
    assert(tables.plans[tables.plan_index(plan_id)].id == Some(plan_id));
    lemma_spent_along_run(deleted, plan_id, changes);
    lemma_filter_none(deleted.run(changes).items, item_in_plan(plan_id));
}

/// A plan that is created and deleted right away is gone, and the
/// deletion finds it.
pub proof fn law_created_then_deleted(tables: PlanTables, plan: TravelPlanView)
    requires
        tables.wf(),
        tables.can_insert_plan(),
    ensures
        tables.insert_plan(plan).has_plan(tables.next_plan_id()),
        tables.insert_plan(plan).delete_plan(tables.next_plan_id()).fetch_plan(
            tables.next_plan_id(),
        ) is None,
        tables.insert_plan(plan).delete_plan(tables.next_plan_id()).items_of(
            tables.next_plan_id(),
        ) == Seq::<PlanItemView>::empty(),
{
    tables.lemma_insert_plan(plan);
    law_deleted_plan_is_gone(tables.insert_plan(plan), tables.next_plan_id());
}

/// After an item was added to a plan, fetching the plan gives the items
/// that the plan had, followed by the new item with the fields that were
/// asked for; and the new item is the only one of them with its id.
pub proof fn law_added_item_is_fetched(
    tables: PlanTables,
    plan_id: i64,
    request: PlanItemRequestView,
)
    requires
        tables.wf(),
        tables.can_insert_item(plan_id),
    ensures
        tables.insert_item(plan_id, request).wf(),
        tables.insert_item(plan_id, request).fetch_plan(plan_id) == Some(
            tables.plan(plan_id).with_items(
                tables.items_of(plan_id).push(request.item(tables.next_item_id(), plan_id)),
            ),
        ),
        tables.insert_item(plan_id, request).items_of(plan_id).filter(
            item_has_id(tables.next_item_id()),
        ) == seq![request.item(tables.next_item_id(), plan_id)],
{
    let id = tables.next_item_id();
    let item = request.item(id, plan_id);
    let had = tables.items_of(plan_id);
    tables.lemma_insert_item(plan_id, request);
    tables.items.lemma_filter_push(item, item_in_plan(plan_id));
    lemma_filter_keeps_order(tables.items, item_in_plan(plan_id));
    lemma_filter_none(had, item_has_id(id));
    had.lemma_filter_push(item, item_has_id(id));
}

/// An item is found only under both of its keys: its own id together with
/// the id of another plan than its own finds nothing, and a rewrite or a
/// removal under that pair changes nothing.
pub proof fn law_item_needs_both_keys(
    tables: PlanTables,
    plan_id: i64,
    other_plan_id: i64,
    item_id: i64,
    request: PlanItemRequestView,
)
    requires
        tables.wf(),
        tables.has_item(plan_id, item_id),
        other_plan_id != plan_id,
    ensures
        !tables.has_item(other_plan_id, item_id),
        tables.update_item(other_plan_id, item_id, request) == tables,
        tables.delete_item(other_plan_id, item_id) == tables,
{
    if tables.has_item(other_plan_id, item_id) {
        tables.lemma_item_unique(
            tables.item_index(plan_id, item_id),
            tables.item_index(other_plan_id, item_id),
        );
    }
    tables.lemma_update_item(other_plan_id, item_id, request);
    tables.lemma_delete_item(other_plan_id, item_id);
}

/// The hits of a search come grouped by kind: first one hit for each place
/// that matched, then one for each accommodation, then one for each
/// restaurant. Each hit carries the tag of the kind whose table its record
/// came from, and the groups keep the order of their tables.
pub proof fn law_search_groups_hits_by_kind(data: AppStateView, query: Seq<char>, i: int)
    requires
        0 <= i < search_hits(data, query).len(),
    ensures
        search_hits(data, query).len() == data.places.matching(query).len()
            + data.accommodations.matching(query).len() + data.restaurants.matching(query).len(),
        i < data.places.matching(query).len() ==> search_hits(data, query)[i] == hit(
            EntityKind::Place,
            data.places.matching(query)[i],
        ),
        data.places.matching(query).len() <= i < data.places.matching(query).len()
            + data.accommodations.matching(query).len() ==> search_hits(data, query)[i] == hit(
            EntityKind::Accommodation,
            data.accommodations.matching(query)[i - data.places.matching(query).len()],
        ),
        data.places.matching(query).len() + data.accommodations.matching(query).len() <= i
            ==> search_hits(data, query)[i] == hit(
            EntityKind::Restaurant,
            data.restaurants.matching(query)[i - data.places.matching(query).len()
                - data.accommodations.matching(query).len()],
        ),
{
}

/// A search finds in the table of each kind exactly the records that
/// mention the query: every record behind a hit is stored in that table
/// and mentions the query, and every stored record that mentions the query
/// is behind a hit.
pub proof fn law_search_finds_what_mentions(data: AppStateView, query: Seq<char>, kind: EntityKind)
    ensures
        forall|j: int|
            0 <= j < data.table(kind).matching(query).len() ==> (#[trigger] data.table(
                kind,
            ).matching(query)[j]).mentions(query) && data.table(kind).rows.contains(
                data.table(kind).matching(query)[j],
            ),
        forall|k: int|
            0 <= k < data.table(kind).rows.len() && (#[trigger] data.table(kind).rows[k]).mentions(
                query,
            ) ==> data.table(kind).matching(query).contains(data.table(kind).rows[k]),
{
    lemma_filter_keeps_order(data.table(kind).rows, record_mentions(query));
    lemma_filter_keeps_passing(data.table(kind).rows, record_mentions(query));
}

} // verus!
