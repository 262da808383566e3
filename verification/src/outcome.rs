//! The outcome model: one closed enumeration of results per operation.
//!
//! Every variant carries at most one payload and maps to exactly one
//! status code; the mapping is fixed here, never computed at request time.

use vstd::prelude::*;

use crate::datetime::UtcDateTime;
use crate::models::{Order, Pet, User};

verus! {

#[derive(Debug, PartialEq)]
#[must_use]
pub enum AddPetResponse {
    /// Successful operation
    SuccessfulOperation(Pet),
    /// Invalid input
    InvalidInput,
}

impl AddPetResponse {
    /// The status code fixed for each outcome of this operation.
    pub open spec fn spec_status(&self) -> u16 {
        match self {
            AddPetResponse::SuccessfulOperation(_) => 200,
            AddPetResponse::InvalidInput => 405,
        }
    }

    pub fn status(&self) -> (r: u16)
        ensures
            r == self.spec_status(),
    {
        match self {
            AddPetResponse::SuccessfulOperation(_) => 200,
            AddPetResponse::InvalidInput => 405,
        }
    }
}

#[derive(Debug, PartialEq)]
#[must_use]
pub enum DeletePetResponse {
    /// Invalid pet value
    InvalidPetValue,
}

impl DeletePetResponse {
    /// The status code fixed for each outcome of this operation.
    pub open spec fn spec_status(&self) -> u16 {
        match self {
            DeletePetResponse::InvalidPetValue => 400,
        }
    }

    pub fn status(&self) -> (r: u16)
        ensures
            r == self.spec_status(),
    {
        match self {
            DeletePetResponse::InvalidPetValue => 400,
        }
    }
}

#[derive(Debug, PartialEq)]
#[must_use]
pub enum FindPetsByStatusResponse {
    /// Successful operation
    SuccessfulOperation(Vec<Pet>),
    /// Invalid status value
    InvalidStatusValue,
}

impl FindPetsByStatusResponse {
    /// The status code fixed for each outcome of this operation.
    pub open spec fn spec_status(&self) -> u16 {
        match self {
            FindPetsByStatusResponse::SuccessfulOperation(_) => 200,
            FindPetsByStatusResponse::InvalidStatusValue => 400,
        }
    }

    pub fn status(&self) -> (r: u16)
        ensures
            r == self.spec_status(),
    {
        match self {
            FindPetsByStatusResponse::SuccessfulOperation(_) => 200,
            FindPetsByStatusResponse::InvalidStatusValue => 400,
        }
    }
}

#[derive(Debug, PartialEq)]
#[must_use]
pub enum FindPetsByTagsResponse {
    /// Successful operation
    SuccessfulOperation(Vec<Pet>),
    /// Invalid tag value
    InvalidTagValue,
}

impl FindPetsByTagsResponse {
    /// The status code fixed for each outcome of this operation.
    pub open spec fn spec_status(&self) -> u16 {
        match self {
            FindPetsByTagsResponse::SuccessfulOperation(_) => 200,
            FindPetsByTagsResponse::InvalidTagValue => 400,
        }
    }

    pub fn status(&self) -> (r: u16)
        ensures
            r == self.spec_status(),
    {
        match self {
            FindPetsByTagsResponse::SuccessfulOperation(_) => 200,
            FindPetsByTagsResponse::InvalidTagValue => 400,
        }
    }
}

#[derive(Debug, PartialEq)]
#[must_use]
pub enum GetPetByIdResponse {
    /// Successful operation
    SuccessfulOperation(Pet),
    /// Invalid ID supplied
    InvalidIDSupplied,
    /// Pet not found
    PetNotFound,
}

impl GetPetByIdResponse {
    /// The status code fixed for each outcome of this operation.
    pub open spec fn spec_status(&self) -> u16 {
        match self {
            GetPetByIdResponse::SuccessfulOperation(_) => 200,
            GetPetByIdResponse::InvalidIDSupplied => 400,
            GetPetByIdResponse::PetNotFound => 404,
        }
    }

    pub fn status(&self) -> (r: u16)
        ensures
            r == self.spec_status(),
    {
        match self {
            GetPetByIdResponse::SuccessfulOperation(_) => 200,
            GetPetByIdResponse::InvalidIDSupplied => 400,
            GetPetByIdResponse::PetNotFound => 404,
        }
    }
}

#[derive(Debug, PartialEq)]
#[must_use]
pub enum UpdatePetResponse {
    /// Successful operation
    SuccessfulOperation(Pet),
    /// Invalid ID supplied
    InvalidIDSupplied,
    /// Pet not found
    PetNotFound,
    /// Validation exception
    ValidationException,
}

impl UpdatePetResponse {
    /// The status code fixed for each outcome of this operation.
    pub open spec fn spec_status(&self) -> u16 {
        match self {
            UpdatePetResponse::SuccessfulOperation(_) => 200,
            UpdatePetResponse::InvalidIDSupplied => 400,
            UpdatePetResponse::PetNotFound => 404,
            UpdatePetResponse::ValidationException => 405,
        }
    }

    pub fn status(&self) -> (r: u16)
        ensures
            r == self.spec_status(),
    {
        match self {
            UpdatePetResponse::SuccessfulOperation(_) => 200,
            UpdatePetResponse::InvalidIDSupplied => 400,
            UpdatePetResponse::PetNotFound => 404,
            UpdatePetResponse::ValidationException => 405,
        }
    }
}

#[derive(Debug, PartialEq)]
#[must_use]
pub enum UpdatePetWithFormResponse {
    /// Invalid input
    InvalidInput,
}

impl UpdatePetWithFormResponse {
    /// The status code fixed for each outcome of this operation.
    pub open spec fn spec_status(&self) -> u16 {
        match self {
            UpdatePetWithFormResponse::InvalidInput => 405,
        }
    }

    pub fn status(&self) -> (r: u16)
        ensures
            r == self.spec_status(),
    {
        match self {
            UpdatePetWithFormResponse::InvalidInput => 405,
        }
    }
}

#[derive(Debug, PartialEq)]
#[must_use]
pub enum DeleteOrderResponse {
    /// Invalid ID supplied
    InvalidIDSupplied,
    /// Order not found
    OrderNotFound,
}

impl DeleteOrderResponse {
    /// The status code fixed for each outcome of this operation.
    pub open spec fn spec_status(&self) -> u16 {
        match self {
            DeleteOrderResponse::InvalidIDSupplied => 400,
            DeleteOrderResponse::OrderNotFound => 404,
        }
    }

    pub fn status(&self) -> (r: u16)
        ensures
            r == self.spec_status(),
    {
        match self {
            DeleteOrderResponse::InvalidIDSupplied => 400,
            DeleteOrderResponse::OrderNotFound => 404,
        }
    }
}

#[derive(Debug, PartialEq)]
#[must_use]
pub enum GetInventoryResponse {
    /// Successful operation
    SuccessfulOperation(Vec<(String, i32)>),
}

impl GetInventoryResponse {
    /// The status code fixed for each outcome of this operation.
    pub open spec fn spec_status(&self) -> u16 {
        match self {
            GetInventoryResponse::SuccessfulOperation(_) => 200,
        }
    }

    pub fn status(&self) -> (r: u16)
        ensures
            r == self.spec_status(),
    {
        match self {
            GetInventoryResponse::SuccessfulOperation(_) => 200,
        }
    }
}

#[derive(Debug, PartialEq)]
#[must_use]
pub enum GetOrderByIdResponse {
    /// Successful operation
    SuccessfulOperation(Order),
    /// Invalid ID supplied
    InvalidIDSupplied,
    /// Order not found
    OrderNotFound,
}

impl GetOrderByIdResponse {
    /// The status code fixed for each outcome of this operation.
    pub open spec fn spec_status(&self) -> u16 {
        match self {
            GetOrderByIdResponse::SuccessfulOperation(_) => 200,
            GetOrderByIdResponse::InvalidIDSupplied => 400,
            GetOrderByIdResponse::OrderNotFound => 404,
        }
    }

    pub fn status(&self) -> (r: u16)
        ensures
            r == self.spec_status(),
    {
        match self {
            GetOrderByIdResponse::SuccessfulOperation(_) => 200,
            GetOrderByIdResponse::InvalidIDSupplied => 400,
            GetOrderByIdResponse::OrderNotFound => 404,
        }
    }
}

#[derive(Debug, PartialEq)]
#[must_use]
pub enum PlaceOrderResponse {
    /// Successful operation
    SuccessfulOperation(Order),
    /// Invalid input
    InvalidInput,
}

impl PlaceOrderResponse {
    /// The status code fixed for each outcome of this operation.
    pub open spec fn spec_status(&self) -> u16 {
        match self {
            PlaceOrderResponse::SuccessfulOperation(_) => 200,
            PlaceOrderResponse::InvalidInput => 405,
        }
    }

    pub fn status(&self) -> (r: u16)
        ensures
            r == self.spec_status(),
    {
        match self {
            PlaceOrderResponse::SuccessfulOperation(_) => 200,
            PlaceOrderResponse::InvalidInput => 405,
        }
    }
}

#[derive(Debug, PartialEq)]
#[must_use]
pub enum CreateUserResponse {
    /// Successful operation
    SuccessfulOperation(User),
}

impl CreateUserResponse {
    /// The status code fixed for each outcome of this operation.
    pub open spec fn spec_status(&self) -> u16 {
        match self {
            CreateUserResponse::SuccessfulOperation(_) => 200,
        }
    }

    pub fn status(&self) -> (r: u16)
        ensures
            r == self.spec_status(),
    {
        match self {
            CreateUserResponse::SuccessfulOperation(_) => 200,
        }
    }
}

#[allow(non_camel_case_types)]
#[derive(Debug, PartialEq)]
#[must_use]
pub enum CreateUsersWithListInputResponse {
    /// Successful operation
    SuccessfulOperation(User),
    /// Successful operation with no content
    SuccessfulOperation_2,
}

impl CreateUsersWithListInputResponse {
    /// The status code fixed for each outcome of this operation.
    pub open spec fn spec_status(&self) -> u16 {
        match self {
            CreateUsersWithListInputResponse::SuccessfulOperation(_) => 200,
            CreateUsersWithListInputResponse::SuccessfulOperation_2 => 204,
        }
    }

    pub fn status(&self) -> (r: u16)
        ensures
            r == self.spec_status(),
    {
        match self {
            CreateUsersWithListInputResponse::SuccessfulOperation(_) => 200,
            CreateUsersWithListInputResponse::SuccessfulOperation_2 => 204,
        }
    }
}

#[derive(Debug, PartialEq)]
#[must_use]
pub enum DeleteUserResponse {
    /// Invalid username supplied
    InvalidUsernameSupplied,
    /// User not found
    UserNotFound,
}

impl DeleteUserResponse {
    /// The status code fixed for each outcome of this operation.
    pub open spec fn spec_status(&self) -> u16 {
        match self {
            DeleteUserResponse::InvalidUsernameSupplied => 400,
            DeleteUserResponse::UserNotFound => 404,
        }
    }

    pub fn status(&self) -> (r: u16)
        ensures
            r == self.spec_status(),
    {
        match self {
            DeleteUserResponse::InvalidUsernameSupplied => 400,
            DeleteUserResponse::UserNotFound => 404,
        }
    }
}

#[derive(Debug, PartialEq)]
#[must_use]
pub enum GetUserByNameResponse {
    /// Successful operation
    SuccessfulOperation(User),
    /// Invalid username supplied
    InvalidUsernameSupplied,
    /// User not found
    UserNotFound,
}

impl GetUserByNameResponse {
    /// The status code fixed for each outcome of this operation.
    pub open spec fn spec_status(&self) -> u16 {
        match self {
            GetUserByNameResponse::SuccessfulOperation(_) => 200,
            GetUserByNameResponse::InvalidUsernameSupplied => 400,
            GetUserByNameResponse::UserNotFound => 404,
        }
    }

    pub fn status(&self) -> (r: u16)
        ensures
            r == self.spec_status(),
    {
        match self {
            GetUserByNameResponse::SuccessfulOperation(_) => 200,
            GetUserByNameResponse::InvalidUsernameSupplied => 400,
            GetUserByNameResponse::UserNotFound => 404,
        }
    }
}

#[derive(Debug, PartialEq)]
#[must_use]
pub enum LoginUserResponse {
    /// Successful operation
    SuccessfulOperation { body: String, x_rate_limit: Option<i32>, x_expires_after: Option<UtcDateTime> },
    /// Invalid username/password supplied
    InvalidUsername,
}

impl LoginUserResponse {
    /// The status code fixed for each outcome of this operation.
    pub open spec fn spec_status(&self) -> u16 {
        match self {
            LoginUserResponse::SuccessfulOperation { .. } => 200,
            LoginUserResponse::InvalidUsername => 400,
        }
    }

    pub fn status(&self) -> (r: u16)
        ensures
            r == self.spec_status(),
    {
        match self {
            LoginUserResponse::SuccessfulOperation { .. } => 200,
            LoginUserResponse::InvalidUsername => 400,
        }
    }
}

#[derive(Debug, PartialEq)]
#[must_use]
pub enum LogoutUserResponse {
    /// Successful operation
    SuccessfulOperation,
}

impl LogoutUserResponse {
    /// The status code fixed for each outcome of this operation.
    pub open spec fn spec_status(&self) -> u16 {
        match self {
            LogoutUserResponse::SuccessfulOperation => 200,
        }
    }

    pub fn status(&self) -> (r: u16)
        ensures
            r == self.spec_status(),
    {
        match self {
            LogoutUserResponse::SuccessfulOperation => 200,
        }
    }
}

#[derive(Debug, PartialEq)]
#[must_use]
pub enum UpdateUserResponse {
    /// Successful operation
    SuccessfulOperation,
}

impl UpdateUserResponse {
    /// The status code fixed for each outcome of this operation.
    pub open spec fn spec_status(&self) -> u16 {
        match self {
            UpdateUserResponse::SuccessfulOperation => 200,
        }
    }

    pub fn status(&self) -> (r: u16)
        ensures
            r == self.spec_status(),
    {
        match self {
            UpdateUserResponse::SuccessfulOperation => 200,
        }
    }
}


/// Within this operation the outcome-to-status mapping is injective: two
/// outcomes carrying the same status code are the same variant.
pub proof fn lemma_add_pet_status_unique(a: &AddPetResponse, b: &AddPetResponse)
    requires
        a.spec_status() == b.spec_status(),
    ensures
        (a is SuccessfulOperation) == (b is SuccessfulOperation),
        (a is InvalidInput) == (b is InvalidInput),
{
}


/// Within this operation the outcome-to-status mapping is injective: two
/// outcomes carrying the same status code are the same variant.
pub proof fn lemma_find_pets_by_status_status_unique(a: &FindPetsByStatusResponse, b: &FindPetsByStatusResponse)
    requires
        a.spec_status() == b.spec_status(),
    ensures
        (a is SuccessfulOperation) == (b is SuccessfulOperation),
        (a is InvalidStatusValue) == (b is InvalidStatusValue),
{
}


/// Within this operation the outcome-to-status mapping is injective: two
/// outcomes carrying the same status code are the same variant.
pub proof fn lemma_find_pets_by_tags_status_unique(a: &FindPetsByTagsResponse, b: &FindPetsByTagsResponse)
    requires
        a.spec_status() == b.spec_status(),
    ensures
        (a is SuccessfulOperation) == (b is SuccessfulOperation),
        (a is InvalidTagValue) == (b is InvalidTagValue),
{
}


/// Within this operation the outcome-to-status mapping is injective: two
/// outcomes carrying the same status code are the same variant.
pub proof fn lemma_get_pet_by_id_status_unique(a: &GetPetByIdResponse, b: &GetPetByIdResponse)
    requires
        a.spec_status() == b.spec_status(),
    ensures
        (a is SuccessfulOperation) == (b is SuccessfulOperation),
        (a is InvalidIDSupplied) == (b is InvalidIDSupplied),
        (a is PetNotFound) == (b is PetNotFound),
{
}


/// Within this operation the outcome-to-status mapping is injective: two
/// outcomes carrying the same status code are the same variant.
pub proof fn lemma_update_pet_status_unique(a: &UpdatePetResponse, b: &UpdatePetResponse)
    requires
        a.spec_status() == b.spec_status(),
    ensures
        (a is SuccessfulOperation) == (b is SuccessfulOperation),
        (a is InvalidIDSupplied) == (b is InvalidIDSupplied),
        (a is PetNotFound) == (b is PetNotFound),
        (a is ValidationException) == (b is ValidationException),
{
}


/// Within this operation the outcome-to-status mapping is injective: two
/// outcomes carrying the same status code are the same variant.
pub proof fn lemma_delete_order_status_unique(a: &DeleteOrderResponse, b: &DeleteOrderResponse)
    requires
        a.spec_status() == b.spec_status(),
    ensures
        (a is InvalidIDSupplied) == (b is InvalidIDSupplied),
        (a is OrderNotFound) == (b is OrderNotFound),
{
}


/// Within this operation the outcome-to-status mapping is injective: two
/// outcomes carrying the same status code are the same variant.
pub proof fn lemma_get_order_by_id_status_unique(a: &GetOrderByIdResponse, b: &GetOrderByIdResponse)
    requires
        a.spec_status() == b.spec_status(),
    ensures
        (a is SuccessfulOperation) == (b is SuccessfulOperation),
        (a is InvalidIDSupplied) == (b is InvalidIDSupplied),
        (a is OrderNotFound) == (b is OrderNotFound),
{
}


/// Within this operation the outcome-to-status mapping is injective: two
/// outcomes carrying the same status code are the same variant.
pub proof fn lemma_place_order_status_unique(a: &PlaceOrderResponse, b: &PlaceOrderResponse)
    requires
        a.spec_status() == b.spec_status(),
    ensures
        (a is SuccessfulOperation) == (b is SuccessfulOperation),
        (a is InvalidInput) == (b is InvalidInput),
{
}


/// Within this operation the outcome-to-status mapping is injective: two
/// outcomes carrying the same status code are the same variant.
pub proof fn lemma_create_users_with_list_input_status_unique(a: &CreateUsersWithListInputResponse, b: &CreateUsersWithListInputResponse)
    requires
        a.spec_status() == b.spec_status(),
    ensures
        (a is SuccessfulOperation) == (b is SuccessfulOperation),
        (a is SuccessfulOperation_2) == (b is SuccessfulOperation_2),
{
}


/// Within this operation the outcome-to-status mapping is injective: two
/// outcomes carrying the same status code are the same variant.
pub proof fn lemma_delete_user_status_unique(a: &DeleteUserResponse, b: &DeleteUserResponse)
    requires
        a.spec_status() == b.spec_status(),
    ensures
        (a is InvalidUsernameSupplied) == (b is InvalidUsernameSupplied),
        (a is UserNotFound) == (b is UserNotFound),
{
}


/// Within this operation the outcome-to-status mapping is injective: two
/// outcomes carrying the same status code are the same variant.
pub proof fn lemma_get_user_by_name_status_unique(a: &GetUserByNameResponse, b: &GetUserByNameResponse)
    requires
        a.spec_status() == b.spec_status(),
    ensures
        (a is SuccessfulOperation) == (b is SuccessfulOperation),
        (a is InvalidUsernameSupplied) == (b is InvalidUsernameSupplied),
        (a is UserNotFound) == (b is UserNotFound),
{
}


/// Within this operation the outcome-to-status mapping is injective: two
/// outcomes carrying the same status code are the same variant.
pub proof fn lemma_login_user_status_unique(a: &LoginUserResponse, b: &LoginUserResponse)
    requires
        a.spec_status() == b.spec_status(),
    ensures
        (a is SuccessfulOperation) == (b is SuccessfulOperation),
        (a is InvalidUsername) == (b is InvalidUsername),
{
}

} // verus!
