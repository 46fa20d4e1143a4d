use travel_planner::db::{init_db, AppState};
use travel_planner::error::PlannerError;
use travel_planner::travel_plans::{
    add_plan, add_plan_item, delete_plan, delete_plan_item, get_plan, get_plans, update_plan,
    update_plan_item, PlanItem, PlanItemRequest, TravelPlan,
};

fn plan(name: &str) -> TravelPlan {
    TravelPlan {
        id: None,
        name: name.to_string(),
        start_date: Some("2024-01-01".to_string()),
        end_date: Some("2024-01-05".to_string()),
        items: None,
    }
}

fn request(kind: &str, entity_id: i64, notes: Option<&str>) -> PlanItemRequest {
    PlanItemRequest {
        entity_type: kind.to_string(),
        entity_id,
        visit_date: None,
        notes: notes.map(|n| n.to_string()),
    }
}

fn new_plan(data: &mut AppState, name: &str) -> i64 {
    add_plan(data, plan(name)).unwrap().id.unwrap()
}

fn new_item(data: &mut AppState, plan_id: i64, kind: &str, entity_id: i64) -> i64 {
    add_plan_item(data, plan_id, request(kind, entity_id, None))
        .unwrap()
        .id
        .unwrap()
}

#[test]
fn created_plan_with_one_item_is_fetched_with_that_item() {
    let mut data = init_db();
    let created = add_plan(&mut data, plan("Trip")).unwrap();
    assert_eq!(created.id, Some(1));
    assert_eq!(created.items, None);

    let item = add_plan_item(&mut data, 1, request("place", 7, Some("see fountain"))).unwrap();
    assert_eq!(item.id, Some(1));
    assert_eq!(item.plan_id, 1);

    let fetched = get_plan(&data, 1).unwrap();
    assert_eq!(
        fetched,
        TravelPlan {
            id: Some(1),
            name: "Trip".to_string(),
            start_date: Some("2024-01-01".to_string()),
            end_date: Some("2024-01-05".to_string()),
            items: Some(vec![PlanItem {
                id: Some(1),
                plan_id: 1,
                entity_type: "place".to_string(),
                entity_id: 7,
                visit_date: None,
                notes: Some("see fountain".to_string()),
            }]),
        }
    );
}

#[test]
fn deleting_the_plan_takes_its_item_along() {
    let mut data = init_db();
    add_plan(&mut data, plan("Trip")).unwrap();
    add_plan_item(&mut data, 1, request("place", 7, Some("see fountain"))).unwrap();

    assert_eq!(delete_plan(&mut data, 1), Ok(()));
    assert_eq!(get_plan(&data, 1), Err(PlannerError::NotFound));
    assert!(data.plans.select_items(1).is_empty());
    assert_eq!(
        update_plan_item(&mut data, 1, 1, request("place", 7, None)),
        Err(PlannerError::NotFound)
    );
    assert_eq!(
        delete_plan_item(&mut data, 1, 1),
        Err(PlannerError::NotFound)
    );
}

#[test]
fn updating_an_item_that_the_plan_does_not_have_finds_nothing() {
    let mut data = init_db();
    add_plan(&mut data, plan("Trip")).unwrap();
    add_plan_item(&mut data, 1, request("place", 7, Some("see fountain"))).unwrap();
    assert_eq!(
        update_plan_item(&mut data, 1, 999, request("place", 8, None)),
        Err(PlannerError::NotFound)
    );
}

#[test]
fn a_deleted_plan_leaves_the_other_plans_and_their_items() {
    let mut data = init_db();
    let a = new_plan(&mut data, "A");
    let b = new_plan(&mut data, "B");
    let a1 = new_item(&mut data, a, "place", 1);
    let b1 = new_item(&mut data, b, "restaurant", 2);
    let a2 = new_item(&mut data, a, "accommodation", 3);
    let b2 = new_item(&mut data, b, "place", 4);

    assert_eq!(delete_plan(&mut data, a), Ok(()));

    assert_eq!(get_plan(&data, a), Err(PlannerError::NotFound));
    assert_eq!(
        delete_plan_item(&mut data, a, a1),
        Err(PlannerError::NotFound)
    );
    assert_eq!(
        delete_plan_item(&mut data, a, a2),
        Err(PlannerError::NotFound)
    );
    let kept = get_plan(&data, b).unwrap();
    let ids: Vec<Option<i64>> = kept.items.unwrap().iter().map(|i| i.id).collect();
    assert_eq!(ids, vec![Some(b1), Some(b2)]);
    assert_eq!(get_plans(&data).unwrap().plans.len(), 1);
}

#[test]
fn deleting_a_plan_twice_finds_nothing_the_second_time() {
    let mut data = init_db();
    let a = new_plan(&mut data, "A");
    assert_eq!(delete_plan(&mut data, a), Ok(()));
    assert_eq!(delete_plan(&mut data, a), Err(PlannerError::NotFound));
}

#[test]
fn an_added_item_is_fetched_exactly_once_with_its_fields() {
    let mut data = init_db();
    let a = new_plan(&mut data, "A");
    new_item(&mut data, a, "place", 1);
    new_item(&mut data, a, "place", 1);
    let asked = PlanItemRequest {
        entity_type: "museum".to_string(),
        entity_id: 55,
        visit_date: Some("2024-01-03".to_string()),
        notes: Some("closed on mondays".to_string()),
    };
    let added = add_plan_item(&mut data, a, asked.clone()).unwrap();
    let id = added.id.unwrap();

    let items = get_plan(&data, a).unwrap().items.unwrap();
    let matching: Vec<&PlanItem> = items.iter().filter(|i| i.id == Some(id)).collect();
    assert_eq!(matching.len(), 1);
    assert_eq!(
        *matching[0],
        PlanItem {
            id: Some(id),
            plan_id: a,
            entity_type: "museum".to_string(),
            entity_id: 55,
            visit_date: Some("2024-01-03".to_string()),
            notes: Some("closed on mondays".to_string()),
        }
    );
    assert_eq!(items.len(), 3);
    assert_eq!(items[2].id, Some(id));
}

#[test]
fn items_come_back_in_the_order_in_which_they_were_added() {
    let mut data = init_db();
    let a = new_plan(&mut data, "A");
    let b = new_plan(&mut data, "B");
    let first = new_item(&mut data, a, "place", 3);
    new_item(&mut data, b, "place", 9);
    let second = new_item(&mut data, a, "restaurant", 1);
    let third = new_item(&mut data, a, "accommodation", 2);
    let items = get_plan(&data, a).unwrap().items.unwrap();
    let ids: Vec<i64> = items.iter().map(|i| i.id.unwrap()).collect();
    assert_eq!(ids, vec![first, second, third]);
    assert!(items.iter().all(|i| i.plan_id == a));
}

#[test]
fn an_item_of_another_plan_cannot_be_rewritten_through_this_plan() {
    let mut data = init_db();
    let a = new_plan(&mut data, "A");
    let b = new_plan(&mut data, "B");
    let of_a = new_item(&mut data, a, "place", 1);

    let r = update_plan_item(
        &mut data,
        b,
        of_a,
        request("restaurant", 2, Some("hijacked")),
    );
    assert_eq!(r, Err(PlannerError::NotFound));

    let items = get_plan(&data, a).unwrap().items.unwrap();
    assert_eq!(items.len(), 1);
    assert_eq!(items[0].entity_type, "place");
    assert_eq!(items[0].entity_id, 1);
    assert_eq!(items[0].notes, None);
    assert_eq!(get_plan(&data, b).unwrap().items, Some(Vec::new()));
}

#[test]
fn an_item_of_another_plan_cannot_be_removed_through_this_plan() {
    let mut data = init_db();
    let a = new_plan(&mut data, "A");
    let b = new_plan(&mut data, "B");
    let of_a = new_item(&mut data, a, "place", 1);
    assert_eq!(
        delete_plan_item(&mut data, b, of_a),
        Err(PlannerError::NotFound)
    );
    assert_eq!(get_plan(&data, a).unwrap().items.unwrap().len(), 1);
}

#[test]
fn an_item_is_rewritten_under_both_of_its_keys() {
    let mut data = init_db();
    let a = new_plan(&mut data, "A");
    let first = new_item(&mut data, a, "place", 1);
    let second = new_item(&mut data, a, "place", 2);
    let updated = update_plan_item(
        &mut data,
        a,
        first,
        request("restaurant", 5, Some("dinner")),
    )
    .unwrap();
    assert_eq!(updated.id, Some(first));
    assert_eq!(updated.plan_id, a);
    let items = get_plan(&data, a).unwrap().items.unwrap();
    assert_eq!(items[0].id, Some(first));
    assert_eq!(items[0].entity_type, "restaurant");
    assert_eq!(items[0].entity_id, 5);
    assert_eq!(items[0].notes, Some("dinner".to_string()));
    assert_eq!(items[1].id, Some(second));
    assert_eq!(items[1].entity_type, "place");
    assert_eq!(items[1].entity_id, 2);
}

#[test]
fn an_item_for_a_plan_that_is_not_stored_is_a_persistence_error() {
    let mut data = init_db();
    assert_eq!(
        add_plan_item(&mut data, 999, request("test", 1, None)),
        Err(PlannerError::PersistenceError)
    );
    let a = new_plan(&mut data, "A");
    assert_eq!(delete_plan(&mut data, a), Ok(()));
    assert_eq!(
        add_plan_item(&mut data, a, request("test", 1, None)),
        Err(PlannerError::PersistenceError)
    );
}

#[test]
fn an_item_may_point_at_anything() {
    let mut data = init_db();
    let a = new_plan(&mut data, "A");
    let item = add_plan_item(&mut data, a, request("spaceship", -4, None)).unwrap();
    assert_eq!(item.entity_type, "spaceship");
    assert_eq!(item.entity_id, -4);
}

#[test]
fn updating_a_plan_keeps_its_items_and_does_not_echo_them() {
    let mut data = init_db();
    let a = new_plan(&mut data, "A");
    let first = new_item(&mut data, a, "place", 1);
    let mut renamed = plan("Renamed");
    renamed.end_date = None;
    let updated = update_plan(&mut data, a, renamed).unwrap();
    assert_eq!(updated.id, Some(a));
    assert_eq!(updated.name, "Renamed");
    assert_eq!(updated.end_date, None);
    assert_eq!(updated.items, None);
    let fetched = get_plan(&data, a).unwrap();
    assert_eq!(fetched.name, "Renamed");
    assert_eq!(fetched.start_date, Some("2024-01-01".to_string()));
    assert_eq!(fetched.end_date, None);
    assert_eq!(fetched.items.unwrap()[0].id, Some(first));
}

#[test]
fn ids_are_handed_out_once() {
    let mut data = init_db();
    let a = new_plan(&mut data, "A");
    let b = new_plan(&mut data, "B");
    assert_eq!((a, b), (1, 2));
    assert_eq!(delete_plan(&mut data, b), Ok(()));
    let c = new_plan(&mut data, "C");
    assert_eq!(c, 3);
    let i1 = new_item(&mut data, a, "place", 1);
    assert_eq!(delete_plan_item(&mut data, a, i1), Ok(()));
    let i2 = new_item(&mut data, c, "place", 1);
    assert_eq!((i1, i2), (1, 2));
}

#[test]
fn a_plan_without_items_is_fetched_with_an_empty_list() {
    let mut data = init_db();
    let a = new_plan(&mut data, "A");
    assert_eq!(get_plan(&data, a).unwrap().items, Some(Vec::new()));
}
