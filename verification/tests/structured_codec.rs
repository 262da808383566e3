//! Round trips and error cases of the structured document encoding.

use petstore_api::datetime::UtcDateTime;
use petstore_api::document::Document;
use petstore_api::error::DecodeError;
use petstore_api::models::{Address, ApiResponse, Category, Customer, Order, Pet, Tag, User};

fn full_pet() -> Pet {
    Pet {
        id: Some(10),
        name: "doggie".to_string(),
        category: Some(Category { id: Some(1), name: Some("Dogs".to_string()) }),
        photo_urls: vec!["http://one".to_string(), "http://two".to_string()],
        tags: Some(vec![
            Tag { id: Some(1), name: Some("cute".to_string()) },
            Tag { id: None, name: None },
        ]),
        status: Some("available".to_string()),
    }
}

#[test]
fn pet_structured_round_trip() {
    let p = full_pet();
    let doc = p.encode_structured();
    assert_eq!(Pet::decode_structured(&doc), Ok(p));
}

#[test]
fn pet_structured_round_trip_minimal() {
    let p = Pet::new("rex".to_string(), vec![]);
    let doc = p.encode_structured();
    assert_eq!(Pet::decode_structured(&doc), Ok(p));
}

#[test]
fn pet_structured_missing_name_fails() {
    let doc = Document::Obj(vec![(
        "photoUrls".to_string(),
        Document::Arr(vec![]),
    )]);
    assert_eq!(Pet::decode_structured(&doc), Err(DecodeError::MissingRequiredField));
}

#[test]
fn pet_structured_missing_photo_urls_fails() {
    let doc = Document::Obj(vec![("name".to_string(), Document::Str("rex".to_string()))]);
    assert_eq!(Pet::decode_structured(&doc), Err(DecodeError::MissingRequiredField));
}

#[test]
fn pet_structured_unknown_fields_are_ignored() {
    let doc = Document::Obj(vec![
        ("name".to_string(), Document::Str("rex".to_string())),
        ("photoUrls".to_string(), Document::Arr(vec![])),
        ("nickname".to_string(), Document::Str("ignored".to_string())),
    ]);
    assert_eq!(Pet::decode_structured(&doc), Ok(Pet::new("rex".to_string(), vec![])));
}

#[test]
fn pet_structured_wrong_shape_fails() {
    let doc = Document::Obj(vec![
        ("name".to_string(), Document::Int(3)),
        ("photoUrls".to_string(), Document::Arr(vec![])),
    ]);
    assert_eq!(Pet::decode_structured(&doc), Err(DecodeError::InvalidValue));
    assert_eq!(
        Pet::decode_structured(&Document::Str("not an object".to_string())),
        Err(DecodeError::InvalidValue)
    );
}

#[test]
fn category_structured_round_trip() {
    let c = Category { id: Some(5), name: Some("dogs".to_string()) };
    assert_eq!(Category::decode_structured(&c.encode_structured()), Ok(c));
}

#[test]
fn tag_structured_round_trip() {
    let t = Tag { id: None, name: Some("x".to_string()) };
    assert_eq!(Tag::decode_structured(&t.encode_structured()), Ok(t));
}

#[test]
fn address_structured_round_trip() {
    let a = Address {
        street: Some("437 Lytton".to_string()),
        city: None,
        state: Some("CA".to_string()),
        zip: None,
    };
    assert_eq!(Address::decode_structured(&a.encode_structured()), Ok(a));
}

#[test]
fn api_response_structured_round_trip() {
    let r = ApiResponse { code: Some(200), type_: Some("ok".to_string()), message: None };
    assert_eq!(ApiResponse::decode_structured(&r.encode_structured()), Ok(r));
}

#[test]
fn customer_structured_round_trip_with_addresses() {
    let c = Customer {
        id: Some(100001),
        username: Some("fehguy".to_string()),
        address: Some(vec![
            Address {
                street: Some("437 Lytton".to_string()),
                city: Some("Palo Alto".to_string()),
                state: Some("CA".to_string()),
                zip: Some("94301".to_string()),
            },
            Address { street: None, city: None, state: None, zip: None },
        ]),
    };
    assert_eq!(Customer::decode_structured(&c.encode_structured()), Ok(c));
}

#[test]
fn order_structured_round_trip() {
    let o = Order {
        id: Some(10),
        pet_id: Some(198772),
        quantity: Some(7),
        ship_date: Some(UtcDateTime::parse("2021-03-01T09:00:00Z").unwrap()),
        status: Some("approved".to_string()),
        complete: Some(true),
    };
    assert_eq!(Order::decode_structured(&o.encode_structured()), Ok(o));
}

#[test]
fn order_structured_bad_ship_date_fails() {
    let doc = Document::Obj(vec![(
        "shipDate".to_string(),
        Document::Str("not a date".to_string()),
    )]);
    assert_eq!(Order::decode_structured(&doc), Err(DecodeError::InvalidValue));
}

#[test]
fn order_structured_quantity_range_check() {
    let doc = Document::Obj(vec![("quantity".to_string(), Document::Int(1 << 40))]);
    assert_eq!(Order::decode_structured(&doc), Err(DecodeError::InvalidValue));
}

#[test]
fn user_structured_round_trip() {
    let u = User {
        id: Some(1),
        username: Some("theUser".to_string()),
        first_name: Some("John".to_string()),
        last_name: None,
        email: Some("john@email.com".to_string()),
        password: None,
        phone: None,
        user_status: Some(1),
    };
    assert_eq!(User::decode_structured(&u.encode_structured()), Ok(u));
}

#[test]
fn datetime_parse_accepts_and_rejects() {
    assert!(UtcDateTime::parse("2021-03-01T09:00:00Z").is_some());
    assert!(UtcDateTime::parse("2021-03-01 09:00:00+02:00").is_some());
    assert!(UtcDateTime::parse("tomorrow").is_none());
    assert!(UtcDateTime::parse("").is_none());
}
