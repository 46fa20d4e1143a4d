//! The statements that an SQL engine is to run for the operations, with
//! their parameters in the order in which they are to be bound. The plan
//! items refer to their plan by `plan_id`; the engine is expected to refuse
//! an item whose plan is not stored, to delete the items of a plan together
//! with the plan, and to hand out every id of a table only once.

use vstd::prelude::*;
use crate::entity::EntityKind;

verus! {

/// Every plan. No parameters.
pub const LIST_PLANS: &'static str = "SELECT id, name, start_date, end_date FROM travel_plans";

/// The number of plans. No parameters.
pub const COUNT_PLANS: &'static str = "SELECT COUNT(*) FROM travel_plans";

/// A new plan. Parameters: name, start date, end date.
pub const INSERT_PLAN: &'static str =
    "INSERT INTO travel_plans (name, start_date, end_date) VALUES (?1, ?2, ?3)";

/// The plan with a given id. Parameter: id.
pub const SELECT_PLAN: &'static str =
    "SELECT id, name, start_date, end_date FROM travel_plans WHERE id = ?1";

/// The items of a plan. Parameter: the plan's id.
pub const SELECT_PLAN_ITEMS: &'static str =
    "SELECT id, plan_id, entity_type, entity_id, visit_date, notes FROM plan_items WHERE plan_id = ?1";

/// New name and dates for a plan. Parameters: name, start date, end date,
/// id.
pub const UPDATE_PLAN: &'static str =
    "UPDATE travel_plans SET name = ?1, start_date = ?2, end_date = ?3 WHERE id = ?4";

/// No more plan with a given id. Parameter: id.
pub const DELETE_PLAN: &'static str = "DELETE FROM travel_plans WHERE id = ?1";

/// A new item of a plan. Parameters: the plan's id, entity type, entity id,
/// visit date, notes.
pub const INSERT_PLAN_ITEM: &'static str =
    "INSERT INTO plan_items (plan_id, entity_type, entity_id, visit_date, notes) VALUES (?1, ?2, ?3, ?4, ?5)";

/// New contents for the item of a plan. Parameters: entity type, entity
/// id, visit date, notes, the item's id, the plan's id.
pub const UPDATE_PLAN_ITEM: &'static str =
    "UPDATE plan_items SET entity_type = ?1, entity_id = ?2, visit_date = ?3, notes = ?4 WHERE id = ?5 AND plan_id = ?6";

/// No more item of a plan. Parameters: the item's id, the plan's id.
pub const DELETE_PLAN_ITEM: &'static str = "DELETE FROM plan_items WHERE id = ?1 AND plan_id = ?2";

/// The table that holds the records of `kind`.
pub open spec fn table_name(kind: EntityKind) -> Seq<char> {
    match kind {
        EntityKind::Place => "places"@,
        EntityKind::Accommodation => "accommodations"@,
        EntityKind::Restaurant => "restaurants"@,
    }
}

/// Every record of `kind`. No parameters.
pub fn select_all(kind: EntityKind) -> (sql: &'static str)
    ensures
        sql@ == "SELECT id, name, description, location FROM "@ + table_name(kind),
{
    proof {
        reveal_strlit("SELECT id, name, description, location FROM ");
        reveal_strlit("places");
        reveal_strlit("accommodations");
        reveal_strlit("restaurants");
        reveal_strlit("SELECT id, name, description, location FROM places");
        reveal_strlit("SELECT id, name, description, location FROM accommodations");
        reveal_strlit("SELECT id, name, description, location FROM restaurants");
    }
    match kind {
        EntityKind::Place => "SELECT id, name, description, location FROM places",
        EntityKind::Accommodation => "SELECT id, name, description, location FROM accommodations",
        EntityKind::Restaurant => "SELECT id, name, description, location FROM restaurants",
    }
}

/// A new record of `kind`. Parameters: name, description, location.
pub fn insert(kind: EntityKind) -> (sql: &'static str)
    ensures
        sql@ == "INSERT INTO "@ + table_name(kind) + " (name, description, location) VALUES (?1, ?2, ?3)"@,
{
    proof {
        reveal_strlit("INSERT INTO ");
        reveal_strlit(" (name, description, location) VALUES (?1, ?2, ?3)");
        reveal_strlit("places");
        reveal_strlit("accommodations");
        reveal_strlit("restaurants");
        reveal_strlit("INSERT INTO places (name, description, location) VALUES (?1, ?2, ?3)");
        reveal_strlit("INSERT INTO accommodations (name, description, location) VALUES (?1, ?2, ?3)");
        reveal_strlit("INSERT INTO restaurants (name, description, location) VALUES (?1, ?2, ?3)");
    }
    match kind {
        EntityKind::Place => "INSERT INTO places (name, description, location) VALUES (?1, ?2, ?3)",
        EntityKind::Accommodation => "INSERT INTO accommodations (name, description, location) VALUES (?1, ?2, ?3)",
        EntityKind::Restaurant => "INSERT INTO restaurants (name, description, location) VALUES (?1, ?2, ?3)",
    }
}

/// The record of `kind` with a given id. Parameter: id.
pub fn select(kind: EntityKind) -> (sql: &'static str)
    ensures
        sql@ == "SELECT id, name, description, location FROM "@ + table_name(kind) + " WHERE id = ?1"@,
{
    proof {
        reveal_strlit("SELECT id, name, description, location FROM ");
        reveal_strlit(" WHERE id = ?1");
        reveal_strlit("places");
        reveal_strlit("accommodations");
        reveal_strlit("restaurants");
        reveal_strlit("SELECT id, name, description, location FROM places WHERE id = ?1");
        reveal_strlit("SELECT id, name, description, location FROM accommodations WHERE id = ?1");
        reveal_strlit("SELECT id, name, description, location FROM restaurants WHERE id = ?1");
    }
    match kind {
        EntityKind::Place => "SELECT id, name, description, location FROM places WHERE id = ?1",
        EntityKind::Accommodation => "SELECT id, name, description, location FROM accommodations WHERE id = ?1",
        EntityKind::Restaurant => "SELECT id, name, description, location FROM restaurants WHERE id = ?1",
    }
}

/// New name, description and location for the record of `kind` with a given
/// id. Parameters: name, description, location, id.
pub fn update(kind: EntityKind) -> (sql: &'static str)
    ensures
        sql@ == "UPDATE "@ + table_name(kind) + " SET name = ?1, description = ?2, location = ?3 WHERE id = ?4"@,
{
    proof {
        reveal_strlit("UPDATE ");
        reveal_strlit(" SET name = ?1, description = ?2, location = ?3 WHERE id = ?4");
        reveal_strlit("places");
        reveal_strlit("accommodations");
        reveal_strlit("restaurants");
        reveal_strlit("UPDATE places SET name = ?1, description = ?2, location = ?3 WHERE id = ?4");
        reveal_strlit("UPDATE accommodations SET name = ?1, description = ?2, location = ?3 WHERE id = ?4");
        reveal_strlit("UPDATE restaurants SET name = ?1, description = ?2, location = ?3 WHERE id = ?4");
    }
    match kind {
        EntityKind::Place => "UPDATE places SET name = ?1, description = ?2, location = ?3 WHERE id = ?4",
        EntityKind::Accommodation => "UPDATE accommodations SET name = ?1, description = ?2, location = ?3 WHERE id = ?4",
        EntityKind::Restaurant => "UPDATE restaurants SET name = ?1, description = ?2, location = ?3 WHERE id = ?4",
    }
}

/// No more record of `kind` with a given id. Parameter: id.
pub fn delete(kind: EntityKind) -> (sql: &'static str)
    ensures
        sql@ == "DELETE FROM "@ + table_name(kind) + " WHERE id = ?1"@,
{
    proof {
        reveal_strlit("DELETE FROM ");
        reveal_strlit(" WHERE id = ?1");
        reveal_strlit("places");
        reveal_strlit("accommodations");
        reveal_strlit("restaurants");
        reveal_strlit("DELETE FROM places WHERE id = ?1");
        reveal_strlit("DELETE FROM accommodations WHERE id = ?1");
        reveal_strlit("DELETE FROM restaurants WHERE id = ?1");
    }
    match kind {
        EntityKind::Place => "DELETE FROM places WHERE id = ?1",
        EntityKind::Accommodation => "DELETE FROM accommodations WHERE id = ?1",
        EntityKind::Restaurant => "DELETE FROM restaurants WHERE id = ?1",
    }
}

/// The records of `kind` whose name or description matches a pattern.
/// Parameter: the pattern.
pub fn search(kind: EntityKind) -> (sql: &'static str)
    ensures
        sql@ == "SELECT id, name, description, location FROM "@ + table_name(kind) + " WHERE name LIKE ?1 OR description LIKE ?1"@,
{
    proof {
        reveal_strlit("SELECT id, name, description, location FROM ");
        reveal_strlit(" WHERE name LIKE ?1 OR description LIKE ?1");
        reveal_strlit("places");
        reveal_strlit("accommodations");
        reveal_strlit("restaurants");
        reveal_strlit("SELECT id, name, description, location FROM places WHERE name LIKE ?1 OR description LIKE ?1");
        reveal_strlit("SELECT id, name, description, location FROM accommodations WHERE name LIKE ?1 OR description LIKE ?1");
        reveal_strlit("SELECT id, name, description, location FROM restaurants WHERE name LIKE ?1 OR description LIKE ?1");
    }
    match kind {
        EntityKind::Place => "SELECT id, name, description, location FROM places WHERE name LIKE ?1 OR description LIKE ?1",
        EntityKind::Accommodation => "SELECT id, name, description, location FROM accommodations WHERE name LIKE ?1 OR description LIKE ?1",
        EntityKind::Restaurant => "SELECT id, name, description, location FROM restaurants WHERE name LIKE ?1 OR description LIKE ?1",
    }
}

} // verus!
