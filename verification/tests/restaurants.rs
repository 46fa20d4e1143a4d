use travel_planner::db::{init_db, AppState};
use travel_planner::restaurants::{
    add_restaurant, delete_restaurant, get_restaurant, get_restaurants, update_restaurant,
    Restaurant,
};
use travel_planner::status::{answer_status, creation_status, removal_status};

fn init_test_db_app() -> AppState {
    init_db()
}

fn payload(name: &str, description: &str, location: &str) -> Restaurant {
    Restaurant {
        id: None,
        name: name.to_string(),
        description: Some(description.to_string()),
        location: Some(location.to_string()),
    }
}

#[test]
fn test_add_restaurant() {
    let mut app = init_test_db_app();
    let new_restaurant_payload = payload("Test Cafe", "A lovely place for coffee", "123 Test St");

    let resp = add_restaurant(&mut app, new_restaurant_payload);
    assert_eq!(creation_status(&resp), 201, "Expected 201 Created");

    let body = resp.unwrap();
    assert_eq!(body.name, "Test Cafe");
    assert_eq!(
        body.description.as_deref(),
        Some("A lovely place for coffee")
    );
    assert!(
        body.id.is_some(),
        "Expected created restaurant to have an ID"
    );
}

#[test]
fn test_get_restaurants_empty_and_then_one() {
    let mut app = init_test_db_app();

    let resp_empty = get_restaurants(&app);
    assert_eq!(answer_status(&resp_empty), 200);
    let body_empty = resp_empty.unwrap();
    assert!(
        body_empty.is_empty(),
        "Expected empty list of restaurants initially"
    );

    let new_restaurant_payload = payload("Pizza Place", "Best pizza in town", "456 Main Ave");
    let add_resp = add_restaurant(&mut app, new_restaurant_payload);
    assert_eq!(creation_status(&add_resp), 201);
    let added_restaurant = add_resp.unwrap();

    let resp_filled = get_restaurants(&app);
    assert_eq!(answer_status(&resp_filled), 200);
    let body_filled = resp_filled.unwrap();
    assert_eq!(body_filled.len(), 1, "Expected one restaurant after adding");
    assert_eq!(body_filled[0].name, "Pizza Place");
    assert_eq!(body_filled[0].id, added_restaurant.id);
}

#[test]
fn test_get_specific_restaurant() {
    let mut app = init_test_db_app();

    let add_resp = add_restaurant(&mut app, payload("Sushi Spot", "Fresh sushi", "789 Bay Rd"));
    assert_eq!(creation_status(&add_resp), 201);
    let added_restaurant = add_resp.unwrap();
    let restaurant_id = added_restaurant.id.unwrap();

    let get_resp = get_restaurant(&app, restaurant_id);
    assert_eq!(answer_status(&get_resp), 200);
    let fetched_restaurant = get_resp.unwrap();
    assert_eq!(fetched_restaurant.id, Some(restaurant_id));
    assert_eq!(fetched_restaurant.name, "Sushi Spot");

    let get_non_existent_resp = get_restaurant(&app, 9999);
    assert_eq!(answer_status(&get_non_existent_resp), 404);
}

#[test]
fn test_update_restaurant() {
    let mut app = init_test_db_app();

    let add_resp = add_restaurant(
        &mut app,
        payload("Old Grill", "Steaks and stuff", "1st Street"),
    );
    assert_eq!(creation_status(&add_resp), 201);
    let added_restaurant = add_resp.unwrap();
    let restaurant_id = added_restaurant.id.unwrap();

    let updated_payload = payload("New Vegan Grill", "Plant-based goodness", "2nd Avenue");
    let update_resp = update_restaurant(&mut app, restaurant_id, updated_payload.clone());
    assert_eq!(answer_status(&update_resp), 200);
    let updated_restaurant_body = update_resp.unwrap();
    assert_eq!(updated_restaurant_body.name, "New Vegan Grill");
    assert_eq!(
        updated_restaurant_body.description.as_deref(),
        Some("Plant-based goodness")
    );
    assert_eq!(updated_restaurant_body.id, Some(restaurant_id));

    let fetched_restaurant = get_restaurant(&app, restaurant_id).unwrap();
    assert_eq!(fetched_restaurant.name, "New Vegan Grill");

    let update_non_existent_resp = update_restaurant(&mut app, 8888, updated_payload);
    assert_eq!(answer_status(&update_non_existent_resp), 404);
}

#[test]
fn test_delete_restaurant() {
    let mut app = init_test_db_app();

    let add_resp = add_restaurant(&mut app, payload("To Be Deleted", "Short lived", "Nowhere"));
    assert_eq!(creation_status(&add_resp), 201);
    let added_restaurant = add_resp.unwrap();
    let restaurant_id = added_restaurant.id.unwrap();

    let delete_resp = delete_restaurant(&mut app, restaurant_id);
    assert_eq!(removal_status(&delete_resp), 204);

    let get_resp = get_restaurant(&app, restaurant_id);
    assert_eq!(answer_status(&get_resp), 404);

    let delete_non_existent_resp = delete_restaurant(&mut app, 7777);
    assert_eq!(removal_status(&delete_non_existent_resp), 404);
}
