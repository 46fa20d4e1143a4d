use travel_planner::db::{init_db, AppState};
use travel_planner::places::{add_place, delete_place, get_place, get_places, update_place, Place};
use travel_planner::status::{answer_status, creation_status, removal_status};

fn setup_test_app() -> AppState {
    init_db()
}

#[test]
fn test_add_get_place() {
    let mut app_state = setup_test_app();

    let new_place = Place {
        id: None,
        name: "Test Landmark".to_string(),
        description: Some("A significant place".to_string()),
        location: Some("Test City Center".to_string()),
    };
    let resp_add = add_place(&mut app_state, new_place.clone());
    assert_eq!(creation_status(&resp_add), 201);
    let added_place = resp_add.unwrap();
    assert!(added_place.id.is_some());
    assert_eq!(added_place.name, "Test Landmark");

    let place_id = added_place.id.unwrap();

    let resp_get = get_place(&app_state, place_id);
    assert_eq!(answer_status(&resp_get), 200);
    let fetched_place = resp_get.unwrap();
    assert_eq!(fetched_place.id, Some(place_id));
    assert_eq!(fetched_place.name, "Test Landmark");

    let resp_get_all = get_places(&app_state);
    assert_eq!(answer_status(&resp_get_all), 200);
    let all_places = resp_get_all.unwrap();
    assert_eq!(all_places.len(), 1);
    assert_eq!(all_places[0].id, Some(place_id));
}

#[test]
fn test_update_place() {
    let mut app_state = setup_test_app();

    let initial_place = Place {
        id: None,
        name: "Old Cafe".to_string(),
        description: Some("Vintage style".to_string()),
        location: Some("Historic District".to_string()),
    };
    let added_place = add_place(&mut app_state, initial_place.clone()).unwrap();
    let place_id = added_place.id.unwrap();

    let updated_details = Place {
        id: None,
        name: "New Modern Cafe".to_string(),
        description: Some("Sleek and new".to_string()),
        location: Some("Downtown".to_string()),
    };

    let update_resp = update_place(&mut app_state, place_id, updated_details.clone());
    assert_eq!(answer_status(&update_resp), 200);
    let updated_place_resp = update_resp.unwrap();
    assert_eq!(updated_place_resp.id, Some(place_id));
    assert_eq!(updated_place_resp.name, "New Modern Cafe");

    let fetched_updated_place = get_place(&app_state, place_id).unwrap();
    assert_eq!(fetched_updated_place.name, "New Modern Cafe");
}

#[test]
fn test_delete_place() {
    let mut app_state = setup_test_app();

    let place_to_delete = Place {
        id: None,
        name: "Temporary Site".to_string(),
        description: None,
        location: None,
    };
    let added_place = add_place(&mut app_state, place_to_delete.clone()).unwrap();
    let place_id = added_place.id.unwrap();

    let delete_resp = delete_place(&mut app_state, place_id);
    assert_eq!(removal_status(&delete_resp), 204);

    let get_resp_after_delete = get_place(&app_state, place_id);
    assert_eq!(answer_status(&get_resp_after_delete), 404);
}

#[test]
fn test_get_place_not_found() {
    let app_state = setup_test_app();
    let resp = get_place(&app_state, 777_i64);
    assert_eq!(answer_status(&resp), 404);
}

#[test]
fn test_update_place_not_found() {
    let mut app_state = setup_test_app();
    let updated_details = Place {
        id: None,
        name: "Ghost Place".to_string(),
        description: Some("You can't see me".to_string()),
        location: Some("Limbo".to_string()),
    };
    let resp = update_place(&mut app_state, 777_i64, updated_details.clone());
    assert_eq!(answer_status(&resp), 404);
}

#[test]
fn test_delete_place_not_found() {
    let mut app_state = setup_test_app();
    let resp = delete_place(&mut app_state, 777_i64);
    assert_eq!(removal_status(&resp), 404);
}
