use uuid::request::{from_param, from_request, uuid_from_cookies, UuidFromRequestError};
use uuid::Uuid;

#[test]
fn test_from_param() {
    // Test if response is correct
    let uuid = Uuid::parse_str("a1a2a3a4b1b2c1c2d1d2d3d4d5d6d7d8").expect("Invalid uuid");
    let found = from_param(&uuid.to_string()).expect("valid parameter");
    assert_eq!(found, uuid);
    assert_eq!(found.to_string(), "a1a2a3a4-b1b2-c1c2-d1d2-d3d4d5d6d7d8");

    // Test if failure message is correct
    assert_eq!(from_param("this-is-an-invalid-uuid"), Err("Unable to parse uuid from str."));
}

#[test]
fn test_from_request() {
    // Setup
    let uuid = Uuid::parse_str("a1a2a3a4b1b2c1c2d1d2d3d4d5d6d7d8").expect("Invalid uuid");

    // Test if response is correct and works with uuid set as cookie
    let response = from_request(Some(&uuid.to_string()), None);
    assert_eq!(response, Ok(uuid));
    assert_eq!(response.unwrap().to_string(), "a1a2a3a4-b1b2-c1c2-d1d2-d3d4d5d6d7d8");

    // Test if response is correct and works with uuid sent in http-header
    let response = from_request(None, Some(&uuid.to_string()));
    assert_eq!(response, Ok(uuid));
    assert_eq!(response.unwrap().to_string(), "a1a2a3a4-b1b2-c1c2-d1d2-d3d4d5d6d7d8");

    // Test if failure message is correct
    assert_eq!(from_request(None, None), Err(UuidFromRequestError::Missing));
}

#[test]
fn a_cookie_that_spells_nothing_gives_way_to_the_header() {
    let uuid = Uuid::parse_str("a1a2a3a4b1b2c1c2d1d2d3d4d5d6d7d8").unwrap();
    assert_eq!(from_request(Some("no identifier"), Some(&uuid.to_string())), Ok(uuid));
    assert_eq!(
        from_request(Some("no identifier"), Some("nor this")),
        Err(UuidFromRequestError::Invalid(String::from("Unable to parse uuid from header.")))
    );
    assert_eq!(from_request(Some("no identifier"), None), Err(UuidFromRequestError::Missing));
    assert_eq!(
        uuid_from_cookies(Some("no identifier")),
        Err(UuidFromRequestError::Invalid(String::from("Unable to parse uuid from cookie.")))
    );
    assert_eq!(uuid_from_cookies(None), Err(UuidFromRequestError::Missing));
    assert_eq!(uuid_from_cookies(Some("a1a2a3a4b1b2c1c2d1d2d3d4d5d6d7d8")), Ok(uuid));
}
