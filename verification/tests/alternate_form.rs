//! Exact renderings of the alternate (tree-markup) form.

use petstore_api::models::{Category, Order, Pet, Tag, User};

#[test]
fn category_alternate_exact() {
    let c = Category { id: Some(5), name: Some("dogs".to_string()) };
    assert_eq!(c.encode_alternate(), "<category><id>5</id><name>dogs</name></category>");
}

#[test]
fn category_alternate_absent_fields_leave_no_elements() {
    let c = Category { id: None, name: None };
    assert_eq!(c.encode_alternate(), "<category></category>");
}

#[test]
fn tag_alternate_escapes_markup_characters() {
    let t = Tag { id: None, name: Some("a<b>&c".to_string()) };
    assert_eq!(t.encode_alternate(), "<tag><name>a&lt;b&gt;&amp;c</name></tag>");
}

#[test]
fn pet_alternate_repeats_list_elements() {
    let p = Pet {
        id: Some(1),
        name: "rex".to_string(),
        category: Some(Category { id: Some(2), name: None }),
        photo_urls: vec!["u1".to_string(), "u2".to_string()],
        tags: None,
        status: None,
    };
    assert_eq!(
        p.encode_alternate(),
        "<pet><id>1</id><name>rex</name><category><id>2</id></category>\
        <photoUrls>u1</photoUrls><photoUrls>u2</photoUrls></pet>"
    );
}

#[test]
fn order_alternate_bool_and_negative_int() {
    let o = Order {
        id: Some(-3),
        pet_id: None,
        quantity: None,
        ship_date: None,
        status: None,
        complete: Some(false),
    };
    assert_eq!(
        o.encode_alternate(),
        "<order><id>-3</id><complete>false</complete></order>"
    );
}

#[test]
fn user_alternate_exact() {
    let u = User {
        id: Some(7),
        username: Some("u".to_string()),
        first_name: None,
        last_name: None,
        email: None,
        password: None,
        phone: None,
        user_status: None,
    };
    assert_eq!(u.encode_alternate(), "<user><id>7</id><username>u</username></user>");
}
