use travel_planner::db::{init_db, AppState};
use travel_planner::status::{answer_status, creation_status, removal_status};
use travel_planner::travel_plans::{
    add_plan, add_plan_item, delete_plan, delete_plan_item, get_plan, get_plans, update_plan,
    update_plan_item, PlanItemRequest, TravelPlan,
};

fn setup_test_app_state() -> AppState {
    init_db()
}

fn add_test_plan(app_state: &mut AppState, name: &str) -> i64 {
    let plan = TravelPlan {
        id: None,
        name: name.to_string(),
        start_date: Some("2024-01-01".to_string()),
        end_date: Some("2024-01-05".to_string()),
        items: None,
    };
    let added_plan = add_plan(app_state, plan).expect("the plan should be stored");
    added_plan.id.unwrap()
}

#[test]
fn test_add_get_travel_plan() {
    let mut app_state = setup_test_app_state();
    let plan_name = "Adventure Trip";
    let new_plan = TravelPlan {
        id: None,
        name: plan_name.to_string(),
        start_date: Some("2024-03-10".to_string()),
        end_date: Some("2024-03-15".to_string()),
        items: None,
    };

    let resp_add = add_plan(&mut app_state, new_plan.clone());
    assert_eq!(creation_status(&resp_add), 201);
    let added_plan = resp_add.unwrap();
    assert!(added_plan.id.is_some());
    assert_eq!(added_plan.name, plan_name);

    let plan_id = added_plan.id.unwrap();

    let resp_get = get_plan(&app_state, plan_id);
    assert_eq!(answer_status(&resp_get), 200);
    let fetched_plan = resp_get.unwrap();
    assert_eq!(fetched_plan.id, Some(plan_id));
    assert_eq!(fetched_plan.name, plan_name);
    assert!(fetched_plan.items.is_some());

    let resp_get_all = get_plans(&app_state);
    assert_eq!(answer_status(&resp_get_all), 200);
    let all_plans = resp_get_all.unwrap().plans;
    assert_eq!(all_plans.len(), 1);
    assert_eq!(all_plans[0].id, Some(plan_id));
}

#[test]
fn test_update_travel_plan() {
    let mut app_state = setup_test_app_state();
    let plan_id = add_test_plan(&mut app_state, "Initial Plan");

    let updated_details = TravelPlan {
        id: None,
        name: "Updated Adventure Plan".to_string(),
        start_date: Some("2024-07-01".to_string()),
        end_date: Some("2024-07-07".to_string()),
        items: None,
    };
    let resp_update = update_plan(&mut app_state, plan_id, updated_details.clone());
    assert_eq!(answer_status(&resp_update), 200);
    let updated_plan_resp = resp_update.unwrap();
    assert_eq!(updated_plan_resp.name, "Updated Adventure Plan");

    let fetched_plan = get_plan(&app_state, plan_id).unwrap();
    assert_eq!(fetched_plan.name, "Updated Adventure Plan");
}

#[test]
fn test_delete_travel_plan() {
    let mut app_state = setup_test_app_state();
    let plan_id = add_test_plan(&mut app_state, "Plan to Delete");

    let item_req = PlanItemRequest {
        entity_type: "place".to_string(),
        entity_id: 1,
        visit_date: Some("2024-01-01".to_string()),
        notes: Some("Visit museum".to_string()),
    };
    let _ = add_plan_item(&mut app_state, plan_id, item_req.clone());

    let resp_delete = delete_plan(&mut app_state, plan_id);
    assert_eq!(removal_status(&resp_delete), 204);

    let resp_get = get_plan(&app_state, plan_id);
    assert_eq!(answer_status(&resp_get), 404);

    let count = app_state.plans.select_items(plan_id).len();
    assert_eq!(
        count, 0,
        "Plan items should be deleted when the plan is deleted"
    );
}

#[test]
fn test_travel_plan_not_found_scenarios() {
    let mut app_state = setup_test_app_state();
    let non_existent_plan_id = 999i64;

    let resp_get = get_plan(&app_state, non_existent_plan_id);
    assert_eq!(answer_status(&resp_get), 404);

    let plan_details = TravelPlan {
        id: None,
        name: "ghost".into(),
        start_date: None,
        end_date: None,
        items: None,
    };
    let resp_update = update_plan(&mut app_state, non_existent_plan_id, plan_details.clone());
    assert_eq!(answer_status(&resp_update), 404);

    let resp_delete = delete_plan(&mut app_state, non_existent_plan_id);
    assert_eq!(removal_status(&resp_delete), 404);
}

#[test]
fn test_add_get_plan_item() {
    let mut app_state = setup_test_app_state();
    let plan_id = add_test_plan(&mut app_state, "Plan For Items");

    let item_req = PlanItemRequest {
        entity_type: "accommodation".to_string(),
        entity_id: 123,
        visit_date: Some("2024-03-11".to_string()),
        notes: Some("Check in early".to_string()),
    };

    let resp_add_item = add_plan_item(&mut app_state, plan_id, item_req.clone());
    assert_eq!(creation_status(&resp_add_item), 201);
    let added_item = resp_add_item.unwrap();
    assert!(added_item.id.is_some());
    assert_eq!(added_item.plan_id, plan_id);
    assert_eq!(added_item.entity_type, "accommodation");
    assert_eq!(added_item.entity_id, 123);

    let item_id = added_item.id.unwrap();

    let fetched_plan = get_plan(&app_state, plan_id).unwrap();
    assert_eq!(fetched_plan.items.as_ref().map_or(0, |i| i.len()), 1);
    let fetched_item = &fetched_plan.items.unwrap()[0];
    assert_eq!(fetched_item.id, Some(item_id));
    assert_eq!(fetched_item.entity_type, "accommodation");
}

#[test]
fn test_update_plan_item() {
    let mut app_state = setup_test_app_state();
    let plan_id = add_test_plan(&mut app_state, "Plan for Item Update");

    let initial_item_req = PlanItemRequest {
        entity_type: "place".to_string(),
        entity_id: 1,
        visit_date: Some("2024-01-01".to_string()),
        notes: Some("Initial note".to_string()),
    };
    let added_item = add_plan_item(&mut app_state, plan_id, initial_item_req.clone()).unwrap();
    let item_id = added_item.id.unwrap();

    let updated_item_req = PlanItemRequest {
        entity_type: "place".to_string(),
        entity_id: 2,
        visit_date: Some("2024-01-02".to_string()),
        notes: Some("Updated note".to_string()),
    };
    let resp_update_item =
        update_plan_item(&mut app_state, plan_id, item_id, updated_item_req.clone());
    assert_eq!(answer_status(&resp_update_item), 200);
    let updated_item_resp = resp_update_item.unwrap();
    assert_eq!(updated_item_resp.id, Some(item_id));
    assert_eq!(updated_item_resp.entity_id, 2);
    assert_eq!(updated_item_resp.notes, Some("Updated note".to_string()));

    let fetched_plan = get_plan(&app_state, plan_id).unwrap();
    let item_in_plan = fetched_plan
        .items
        .unwrap()
        .into_iter()
        .find(|i| i.id == Some(item_id))
        .unwrap();
    assert_eq!(item_in_plan.entity_id, 2);
    assert_eq!(item_in_plan.notes, Some("Updated note".to_string()));
}

#[test]
fn test_delete_plan_item() {
    let mut app_state = setup_test_app_state();
    let plan_id = add_test_plan(&mut app_state, "Plan for Item Deletion");

    let item_req1 = PlanItemRequest {
        entity_type: "activity".to_string(),
        entity_id: 10,
        visit_date: None,
        notes: None,
    };
    let item1 = add_plan_item(&mut app_state, plan_id, item_req1.clone()).unwrap();
    let item_id1 = item1.id.unwrap();

    let item_req2 = PlanItemRequest {
        entity_type: "restaurant".to_string(),
        entity_id: 20,
        visit_date: None,
        notes: None,
    };
    let _ = add_plan_item(&mut app_state, plan_id, item_req2.clone());

    let resp_delete_item = delete_plan_item(&mut app_state, plan_id, item_id1);
    assert_eq!(removal_status(&resp_delete_item), 204);

    let fetched_plan = get_plan(&app_state, plan_id).unwrap();
    assert_eq!(fetched_plan.items.as_ref().map_or(0, |i| i.len()), 1);
    assert!(fetched_plan
        .items
        .unwrap()
        .iter()
        .all(|i| i.id != Some(item_id1)));

    let non_existent_item_id = 999i64;
    let resp_delete_non_existent = delete_plan_item(&mut app_state, plan_id, non_existent_item_id);
    assert_eq!(removal_status(&resp_delete_non_existent), 404);

    let resp_delete_from_non_existent_plan = delete_plan_item(&mut app_state, 999i64, item_id1);
    assert_eq!(removal_status(&resp_delete_from_non_existent_plan), 404);
}

#[test]
fn test_plan_item_not_found_scenarios() {
    let mut app_state = setup_test_app_state();
    let plan_id = add_test_plan(&mut app_state, "Plan for Not Found Items");
    let non_existent_item_id = 888i64;
    let non_existent_plan_id = 777i64;

    let item_details = PlanItemRequest {
        entity_type: "ghost".into(),
        entity_id: 0,
        visit_date: None,
        notes: None,
    };

    let resp_update = update_plan_item(
        &mut app_state,
        plan_id,
        non_existent_item_id,
        item_details.clone(),
    );
    assert_eq!(answer_status(&resp_update), 404);

    let resp_update_np = update_plan_item(
        &mut app_state,
        non_existent_plan_id,
        non_existent_item_id,
        item_details.clone(),
    );
    assert_eq!(answer_status(&resp_update_np), 404);

    let resp_delete = delete_plan_item(&mut app_state, plan_id, non_existent_item_id);
    assert_eq!(removal_status(&resp_delete), 404);

    let resp_delete_np =
        delete_plan_item(&mut app_state, non_existent_plan_id, non_existent_item_id);
    assert_eq!(removal_status(&resp_delete_np), 404);
}

#[test]
fn test_add_item_to_non_existent_plan() {
    let mut app_state = setup_test_app_state();
    let non_existent_plan_id = 999i64;
    let item_req = PlanItemRequest {
        entity_type: "test".to_string(),
        entity_id: 1,
        visit_date: None,
        notes: None,
    };
    let resp = add_plan_item(&mut app_state, non_existent_plan_id, item_req.clone());
    assert_eq!(creation_status(&resp), 500);
}
