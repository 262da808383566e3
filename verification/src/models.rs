//! The resource model values: plain attribute bundles with a mix of
//! required and optional fields.
//!
//! Each type has a mathematical view in which text is a character sequence;
//! the wire codec's contracts are stated over these views.

use vstd::prelude::*;

use crate::datetime::UtcDateTime;

verus! {

/// View of an optional value through the view of its content.
pub open spec fn opt_view<T: View>(o: Option<T>) -> Option<T::V> {
    match o {
        Some(x) => Some(x@),
        None => None,
    }
}

/// View of a list of texts.
pub open spec fn strings_view(v: Seq<String>) -> Seq<Seq<char>> {
    v.map_values(|s: String| s@)
}

#[derive(Debug, Clone, PartialEq)]
pub struct Address {
    pub street: Option<String>,
    pub city: Option<String>,
    pub state: Option<String>,
    pub zip: Option<String>,
}

pub struct AddressView {
    pub street: Option<Seq<char>>,
    pub city: Option<Seq<char>>,
    pub state: Option<Seq<char>>,
    pub zip: Option<Seq<char>>,
}

impl View for Address {
    type V = AddressView;

    open spec fn view(&self) -> AddressView {
        AddressView {
            street: opt_view(self.street),
            city: opt_view(self.city),
            state: opt_view(self.state),
            zip: opt_view(self.zip),
        }
    }
}

impl Address {
    /// A value with every optional field absent.
    pub fn new() -> (r: Address)
        ensures
            r@ == (AddressView { street: None, city: None, state: None, zip: None }),
    {
        Address { street: None, city: None, state: None, zip: None }
    }
}

#[derive(Debug, Clone, PartialEq)]
pub struct ApiResponse {
    pub code: Option<i32>,
    pub type_: Option<String>,
    pub message: Option<String>,
}

pub struct ApiResponseView {
    pub code: Option<i32>,
    pub type_: Option<Seq<char>>,
    pub message: Option<Seq<char>>,
}

impl View for ApiResponse {
    type V = ApiResponseView;

    open spec fn view(&self) -> ApiResponseView {
        ApiResponseView {
            code: self.code,
            type_: opt_view(self.type_),
            message: opt_view(self.message),
        }
    }
}

impl ApiResponse {
    /// A value with every optional field absent.
    pub fn new() -> (r: ApiResponse)
        ensures
            r@ == (ApiResponseView { code: None, type_: None, message: None }),
    {
        ApiResponse { code: None, type_: None, message: None }
    }
}

#[derive(Debug, Clone, PartialEq)]
pub struct Category {
    pub id: Option<i64>,
    pub name: Option<String>,
}

pub struct CategoryView {
    pub id: Option<i64>,
    pub name: Option<Seq<char>>,
}

impl View for Category {
    type V = CategoryView;

    open spec fn view(&self) -> CategoryView {
        CategoryView { id: self.id, name: opt_view(self.name) }
    }
}

impl Category {
    /// A value with every optional field absent.
    pub fn new() -> (r: Category)
        ensures
            r@ == (CategoryView { id: None, name: None }),
    {
        Category { id: None, name: None }
    }
}

#[derive(Debug, Clone, PartialEq)]
pub struct Tag {
    pub id: Option<i64>,
    pub name: Option<String>,
}

pub struct TagView {
    pub id: Option<i64>,
    pub name: Option<Seq<char>>,
}

impl View for Tag {
    type V = TagView;

    open spec fn view(&self) -> TagView {
        TagView { id: self.id, name: opt_view(self.name) }
    }
}

impl Tag {
    /// A value with every optional field absent.
    pub fn new() -> (r: Tag)
        ensures
            r@ == (TagView { id: None, name: None }),
    {
        Tag { id: None, name: None }
    }
}

#[derive(Debug, Clone, PartialEq)]
pub struct Customer {
    pub id: Option<i64>,
    pub username: Option<String>,
    pub address: Option<Vec<Address>>,
}

pub struct CustomerView {
    pub id: Option<i64>,
    pub username: Option<Seq<char>>,
    pub address: Option<Seq<AddressView>>,
}

impl View for Customer {
    type V = CustomerView;

    open spec fn view(&self) -> CustomerView {
        CustomerView {
            id: self.id,
            username: opt_view(self.username),
            address: match self.address {
                Some(v) => Some(v@.map_values(|a: Address| a@)),
                None => None,
            },
        }
    }
}

impl Customer {
    /// A value with every optional field absent.
    pub fn new() -> (r: Customer)
        ensures
            r@ == (CustomerView { id: None, username: None, address: None }),
    {
        Customer { id: None, username: None, address: None }
    }
}

#[derive(Debug, Clone, PartialEq)]
pub struct Order {
    pub id: Option<i64>,
    pub pet_id: Option<i64>,
    pub quantity: Option<i32>,
    pub ship_date: Option<UtcDateTime>,
    /// Order status in the store.
    pub status: Option<String>,
    pub complete: Option<bool>,
}

pub struct OrderView {
    pub id: Option<i64>,
    pub pet_id: Option<i64>,
    pub quantity: Option<i32>,
    pub ship_date: Option<Seq<char>>,
    pub status: Option<Seq<char>>,
    pub complete: Option<bool>,
}

impl View for Order {
    type V = OrderView;

    open spec fn view(&self) -> OrderView {
        OrderView {
            id: self.id,
            pet_id: self.pet_id,
            quantity: self.quantity,
            ship_date: opt_view(self.ship_date),
            status: opt_view(self.status),
            complete: self.complete,
        }
    }
}

impl Order {
    /// A value with every optional field absent.
    pub fn new() -> (r: Order)
        ensures
            r@ == (OrderView {
                id: None,
                pet_id: None,
                quantity: None,
                ship_date: None,
                status: None,
                complete: None,
            }),
    {
        Order { id: None, pet_id: None, quantity: None, ship_date: None, status: None, complete: None }
    }
}

#[derive(Debug, Clone, PartialEq)]
pub struct Pet {
    pub id: Option<i64>,
    pub name: String,
    pub category: Option<Category>,
    pub photo_urls: Vec<String>,
    pub tags: Option<Vec<Tag>>,
    /// Pet status in the store.
    pub status: Option<String>,
}

pub struct PetView {
    pub id: Option<i64>,
    pub name: Seq<char>,
    pub category: Option<CategoryView>,
    pub photo_urls: Seq<Seq<char>>,
    pub tags: Option<Seq<TagView>>,
    pub status: Option<Seq<char>>,
}

impl View for Pet {
    type V = PetView;

    open spec fn view(&self) -> PetView {
        PetView {
            id: self.id,
            name: self.name@,
            category: opt_view(self.category),
            photo_urls: strings_view(self.photo_urls@),
            tags: match self.tags {
                Some(v) => Some(v@.map_values(|t: Tag| t@)),
                None => None,
            },
            status: opt_view(self.status),
        }
    }
}

impl Pet {
    /// A value holding the two required fields, every optional field absent.
    pub fn new(name: String, photo_urls: Vec<String>) -> (r: Pet)
        ensures
            r@ == (PetView {
                id: None,
                name: name@,
                category: None,
                photo_urls: strings_view(photo_urls@),
                tags: None,
                status: None,
            }),
    {
        Pet { id: None, name, category: None, photo_urls, tags: None, status: None }
    }
}

#[derive(Debug, Clone, PartialEq)]
pub struct User {
    pub id: Option<i64>,
    pub username: Option<String>,
    pub first_name: Option<String>,
    pub last_name: Option<String>,
    pub email: Option<String>,
    pub password: Option<String>,
    pub phone: Option<String>,
    /// User status.
    pub user_status: Option<i32>,
}

pub struct UserView {
    pub id: Option<i64>,
    pub username: Option<Seq<char>>,
    pub first_name: Option<Seq<char>>,
    pub last_name: Option<Seq<char>>,
    pub email: Option<Seq<char>>,
    pub password: Option<Seq<char>>,
    pub phone: Option<Seq<char>>,
    pub user_status: Option<i32>,
}

impl View for User {
    type V = UserView;

    open spec fn view(&self) -> UserView {
        UserView {
            id: self.id,
            username: opt_view(self.username),
            first_name: opt_view(self.first_name),
            last_name: opt_view(self.last_name),
            email: opt_view(self.email),
            password: opt_view(self.password),
            phone: opt_view(self.phone),
            user_status: self.user_status,
        }
    }
}

impl User {
    /// A value with every optional field absent.
    pub fn new() -> (r: User)
        ensures
            r@ == (UserView {
                id: None,
                username: None,
                first_name: None,
                last_name: None,
                email: None,
                password: None,
                phone: None,
                user_status: None,
            }),
    {
        User {
            id: None,
            username: None,
            first_name: None,
            last_name: None,
            email: None,
            password: None,
            phone: None,
            user_status: None,
        }
    }
}

} // verus!
