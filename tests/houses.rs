use preference_be::house::{
    houses_view, inserted, lookup_outcome, removal_outcome, update_outcome, HouseDTO, HouseDTOInsert,
    HouseEntity, HousesServiceError,
};
use preference_be::numeric::Decimal;

fn sample(link: &str) -> HouseDTOInsert {
    HouseDTOInsert {
        link: link.to_string(),
        vote: Some(0),
        comment: Some("the-comment".to_string()),
        city: Some("Milano".to_string()),
        zone: None,
        street: None,
        lat: Some(Decimal { negative: false, mantissa: 455081, scale: 4 }),
        lng: None,
        rooms_number: Some(2),
        square_meters: Some(60),
    }
}

#[test]
fn insert_builds_visible_entity() {
    let e = HouseEntity::from_insert(sample("http://the.link/foo"), "65a1b2c3d4e5f60718293a4b".to_string());
    assert_eq!(e.id, "65a1b2c3d4e5f60718293a4b");
    assert_eq!(e.link, "http://the.link/foo");
    assert_eq!(e.comment, Some("the-comment".to_string()));
    assert!(!e.removed);
    assert_eq!(e.rooms_number, Some(2));
    let d = HouseDTO::from_entity(e);
    assert_eq!(d.id, "65a1b2c3d4e5f60718293a4b");
    assert_eq!(d.vote, Some(0));
    assert_eq!(d.square_meters, Some(60));
}

#[test]
fn insertion_needs_object_id() {
    assert_eq!(inserted(Some("abc".to_string())).unwrap().id, "abc");
    assert!(matches!(inserted(None), Err(HousesServiceError::UnExpectedMongoDbType)));
}

#[test]
fn removal_of_unknown_house_is_not_found() {
    assert!(removal_outcome("x".to_string(), 1).is_ok());
    match removal_outcome("x".to_string(), 0) {
        Err(HousesServiceError::HouseNotFound(id)) => assert_eq!(id, "x"),
        _ => panic!("expected not found"),
    }
}

#[test]
fn lookup_and_update_outcomes() {
    assert!(matches!(lookup_outcome("y".to_string(), None), Err(HousesServiceError::HouseNotFound(id)) if id == "y"));
    let e = HouseEntity::from_insert(sample("l"), "y".to_string());
    assert_eq!(lookup_outcome("y".to_string(), Some(e)).unwrap().link, "l");
    assert!(update_outcome("z".to_string(), true).is_ok());
    assert!(matches!(update_outcome("z".to_string(), false), Err(HousesServiceError::HouseNotFound(id)) if id == "z"));
}

#[test]
fn houses_view_keeps_order() {
    let houses = vec![
        HouseEntity::from_insert(sample("a"), "1".to_string()),
        HouseEntity::from_insert(sample("b"), "2".to_string()),
        HouseEntity::from_insert(sample("c"), "3".to_string()),
    ];
    let view = houses_view(houses);
    let ids: Vec<&str> = view.iter().map(|d| d.id.as_str()).collect();
    assert_eq!(ids, vec!["1", "2", "3"]);
    assert_eq!(view[1].link, "b");
    assert!(houses_view(Vec::new()).is_empty());
}
