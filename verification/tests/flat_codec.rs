//! Round trips, error cases and exact forms of the flattened encoding.

use petstore_api::error::DecodeError;
use petstore_api::models::{Address, ApiResponse, Category, Customer, Order, Pet, Tag, User};

#[test]
fn category_flat_exact_form() {
    let c = Category { id: Some(5), name: Some("dogs".to_string()) };
    assert_eq!(c.encode_flat(), "id,5,name,dogs");
}

#[test]
fn category_flat_round_trip() {
    let c = Category { id: Some(5), name: Some("dogs".to_string()) };
    assert_eq!(Category::decode_flat(&c.encode_flat()), Ok(c));
}

#[test]
fn category_flat_round_trip_only_name() {
    let c = Category { id: None, name: Some("cats".to_string()) };
    assert_eq!(Category::decode_flat(&c.encode_flat()), Ok(c));
}

#[test]
fn category_flat_negative_id() {
    let c = Category { id: Some(-42), name: None };
    assert_eq!(c.encode_flat(), "id,-42");
    assert_eq!(Category::decode_flat("id,-42"), Ok(c));
}

#[test]
fn category_flat_extreme_ids() {
    for id in [i64::MIN, i64::MAX, 0] {
        let c = Category { id: Some(id), name: None };
        assert_eq!(Category::decode_flat(&c.encode_flat()), Ok(c));
    }
}

#[test]
fn category_flat_id_overflow_is_invalid() {
    assert_eq!(
        Category::decode_flat("id,9223372036854775808"),
        Err(DecodeError::InvalidValue)
    );
}

#[test]
fn category_flat_unknown_key_any_position() {
    assert_eq!(Category::decode_flat("hue,1"), Err(DecodeError::UnexpectedKey));
    assert_eq!(
        Category::decode_flat("id,5,hue,1"),
        Err(DecodeError::UnexpectedKey)
    );
    assert_eq!(
        Category::decode_flat("id,5,hue,1,name,dogs"),
        Err(DecodeError::UnexpectedKey)
    );
}

#[test]
fn category_flat_trailing_key_is_missing_value() {
    assert_eq!(Category::decode_flat("id,5,name"), Err(DecodeError::MissingValue));
    assert_eq!(Category::decode_flat(""), Err(DecodeError::MissingValue));
}

#[test]
fn category_flat_repeated_key_last_wins() {
    assert_eq!(
        Category::decode_flat("id,1,id,2"),
        Ok(Category { id: Some(2), name: None })
    );
}

#[test]
fn tag_flat_round_trip() {
    let t = Tag { id: Some(9), name: Some("fluffy".to_string()) };
    assert_eq!(t.encode_flat(), "id,9,name,fluffy");
    assert_eq!(Tag::decode_flat(&t.encode_flat()), Ok(t));
}

#[test]
fn address_flat_round_trip() {
    let a = Address {
        street: Some("437 Lytton".to_string()),
        city: Some("Palo Alto".to_string()),
        state: Some("CA".to_string()),
        zip: Some("94301".to_string()),
    };
    assert_eq!(
        a.encode_flat(),
        "street,437 Lytton,city,Palo Alto,state,CA,zip,94301"
    );
    assert_eq!(Address::decode_flat(&a.encode_flat()), Ok(a));
}

#[test]
fn address_flat_partial_round_trip() {
    let a = Address {
        street: None,
        city: Some("Vienna".to_string()),
        state: None,
        zip: Some("1010".to_string()),
    };
    assert_eq!(Address::decode_flat(&a.encode_flat()), Ok(a));
}

#[test]
fn api_response_flat_round_trip() {
    let r = ApiResponse {
        code: Some(-7),
        type_: Some("warning".to_string()),
        message: Some("low stock".to_string()),
    };
    assert_eq!(r.encode_flat(), "code,-7,type,warning,message,low stock");
    assert_eq!(ApiResponse::decode_flat(&r.encode_flat()), Ok(r));
}

#[test]
fn api_response_flat_code_out_of_range() {
    assert_eq!(
        ApiResponse::decode_flat("code,2147483648"),
        Err(DecodeError::InvalidValue)
    );
    assert_eq!(
        ApiResponse::decode_flat("code,2147483647"),
        Ok(ApiResponse { code: Some(i32::MAX), type_: None, message: None })
    );
}

#[test]
fn customer_flat_round_trip_without_addresses() {
    let c = Customer { id: Some(1), username: Some("fehguy".to_string()), address: None };
    assert_eq!(c.encode_flat(), "id,1,username,fehguy");
    assert_eq!(Customer::decode_flat(&c.encode_flat()), Ok(c));
}

#[test]
fn customer_flat_address_key_is_unsupported_container() {
    assert_eq!(
        Customer::decode_flat("id,1,address,anything"),
        Err(DecodeError::UnsupportedContainer)
    );
}

#[test]
fn customer_flat_encode_skips_addresses() {
    let c = Customer {
        id: Some(1),
        username: Some("fehguy".to_string()),
        address: Some(vec![Address {
            street: Some("s".to_string()),
            city: None,
            state: None,
            zip: None,
        }]),
    };
    assert_eq!(c.encode_flat(), "id,1,username,fehguy");
}

#[test]
fn order_flat_round_trip() {
    let ship = petstore_api::datetime::UtcDateTime::parse("2021-03-01T09:00:00Z").unwrap();
    let o = Order {
        id: Some(10),
        pet_id: Some(198772),
        quantity: Some(7),
        ship_date: Some(ship),
        status: Some("approved".to_string()),
        complete: Some(true),
    };
    assert_eq!(
        o.encode_flat(),
        "id,10,petId,198772,quantity,7,shipDate,2021-03-01T09:00:00Z,status,approved,complete,true"
    );
    assert_eq!(Order::decode_flat(&o.encode_flat()), Ok(o));
}

#[test]
fn order_flat_bad_ship_date_is_invalid() {
    assert_eq!(
        Order::decode_flat("shipDate,yesterday"),
        Err(DecodeError::InvalidValue)
    );
}

#[test]
fn order_flat_good_ship_date_is_kept() {
    let o = Order::decode_flat("shipDate,2021-03-01 09:00:00+00:00").unwrap();
    assert_eq!(
        o.ship_date.as_ref().map(|d| d.as_str().to_string()),
        Some("2021-03-01 09:00:00+00:00".to_string())
    );
}

#[test]
fn order_flat_bad_bool_is_invalid() {
    assert_eq!(Order::decode_flat("complete,yes"), Err(DecodeError::InvalidValue));
}

#[test]
fn user_flat_round_trip() {
    let u = User {
        id: Some(1),
        username: Some("theUser".to_string()),
        first_name: Some("John".to_string()),
        last_name: Some("James".to_string()),
        email: Some("john@email.com".to_string()),
        password: Some("12345".to_string()),
        phone: Some("12345".to_string()),
        user_status: Some(1),
    };
    assert_eq!(User::decode_flat(&u.encode_flat()), Ok(u));
}

#[test]
fn user_flat_exact_form() {
    let u = User {
        id: Some(1),
        username: Some("theUser".to_string()),
        first_name: None,
        last_name: None,
        email: None,
        password: None,
        phone: None,
        user_status: Some(1),
    };
    assert_eq!(u.encode_flat(), "id,1,username,theUser,userStatus,1");
}

#[test]
fn pet_flat_encode_includes_required_fields() {
    let p = Pet {
        id: Some(10),
        name: "doggie".to_string(),
        category: None,
        photo_urls: vec!["a".to_string(), "b".to_string()],
        tags: None,
        status: Some("available".to_string()),
    };
    assert_eq!(
        p.encode_flat(),
        "id,10,name,doggie,photoUrls,a,b,status,available"
    );
}

#[test]
fn pet_flat_decode_rejects_photo_urls_and_tags() {
    assert_eq!(
        Pet::decode_flat("photoUrls,x"),
        Err(DecodeError::UnsupportedContainer)
    );
    assert_eq!(Pet::decode_flat("tags,x"), Err(DecodeError::UnsupportedContainer));
}

#[test]
fn pet_flat_decode_missing_required_fields() {
    // The photo list cannot travel in the flattened form, so even a form
    // holding the name never yields a Pet.
    assert_eq!(
        Pet::decode_flat("name,doggie"),
        Err(DecodeError::MissingRequiredField)
    );
    assert_eq!(
        Pet::decode_flat("id,10,status,sold"),
        Err(DecodeError::MissingRequiredField)
    );
}

#[test]
fn pet_flat_unknown_key() {
    assert_eq!(
        Pet::decode_flat("name,doggie,color,red"),
        Err(DecodeError::UnexpectedKey)
    );
}
