//! The operation dispatcher: the outcome-to-status table, the
//! create-resource scenario, and input validation short-circuiting.

use std::cell::Cell;

use petstore_api::dispatch::{
    dispatch_add_pet, dispatch_create_users_with_list_input, dispatch_get_pet_by_id,
    serialize_add_pet, serialize_create_user, serialize_create_users_with_list_input,
    serialize_delete_order, serialize_delete_pet, serialize_delete_user,
    serialize_find_pets_by_status, serialize_find_pets_by_tags, serialize_get_inventory,
    serialize_get_order_by_id, serialize_get_pet_by_id, serialize_get_user_by_name,
    serialize_login_user, serialize_logout_user, serialize_place_order, serialize_update_pet,
    serialize_update_pet_with_form, serialize_update_user, Api, ApiError, ContextWrapper,
    ContextWrapperExt,
};
use petstore_api::document::Document;
use petstore_api::http::{Body, RequestContext};
use petstore_api::models::{Order, Pet, User};
use petstore_api::outcome::{
    AddPetResponse, CreateUserResponse, CreateUsersWithListInputResponse, DeleteOrderResponse,
    DeletePetResponse, DeleteUserResponse, FindPetsByStatusResponse, FindPetsByTagsResponse,
    GetInventoryResponse, GetOrderByIdResponse, GetPetByIdResponse, GetUserByNameResponse,
    LoginUserResponse, LogoutUserResponse, PlaceOrderResponse, UpdatePetResponse,
    UpdatePetWithFormResponse, UpdateUserResponse,
};

fn sample_pet() -> Pet {
    Pet::new("doggie".to_string(), vec!["http://one".to_string()])
}

fn sample_user() -> User {
    User::new()
}

fn sample_order() -> Order {
    Order::new()
}

/// A handler that answers every operation with its success outcome and
/// counts how often the pet-creation operation ran.
struct StubApi {
    add_pet_calls: Cell<u32>,
}

impl StubApi {
    fn new() -> StubApi {
        StubApi { add_pet_calls: Cell::new(0) }
    }
}

impl Api for StubApi {
    fn add_pet(&self, pet: Pet, _c: &RequestContext) -> Result<AddPetResponse, ApiError> {
        self.add_pet_calls.set(self.add_pet_calls.get() + 1);
        Ok(AddPetResponse::SuccessfulOperation(pet))
    }

    fn delete_pet(
        &self,
        _pet_id: i64,
        _api_key: Option<String>,
        _c: &RequestContext,
    ) -> Result<DeletePetResponse, ApiError> {
        Ok(DeletePetResponse::InvalidPetValue)
    }

    fn find_pets_by_status(
        &self,
        _status: Option<String>,
        _c: &RequestContext,
    ) -> Result<FindPetsByStatusResponse, ApiError> {
        Ok(FindPetsByStatusResponse::SuccessfulOperation(vec![sample_pet()]))
    }

    fn find_pets_by_tags(
        &self,
        _tags: Option<Vec<String>>,
        _c: &RequestContext,
    ) -> Result<FindPetsByTagsResponse, ApiError> {
        Ok(FindPetsByTagsResponse::InvalidTagValue)
    }

    fn get_pet_by_id(
        &self,
        pet_id: i64,
        _c: &RequestContext,
    ) -> Result<GetPetByIdResponse, ApiError> {
        if pet_id == 10 {
            Ok(GetPetByIdResponse::SuccessfulOperation(sample_pet()))
        } else if pet_id < 0 {
            Err(ApiError("backend fault".to_string()))
        } else {
            Ok(GetPetByIdResponse::PetNotFound)
        }
    }

    fn update_pet(&self, pet: Pet, _c: &RequestContext) -> Result<UpdatePetResponse, ApiError> {
        Ok(UpdatePetResponse::SuccessfulOperation(pet))
    }

    fn update_pet_with_form(
        &self,
        _pet_id: i64,
        _name: Option<String>,
        _status: Option<String>,
        _c: &RequestContext,
    ) -> Result<UpdatePetWithFormResponse, ApiError> {
        Ok(UpdatePetWithFormResponse::InvalidInput)
    }

    fn delete_order(
        &self,
        _order_id: i64,
        _c: &RequestContext,
    ) -> Result<DeleteOrderResponse, ApiError> {
        Ok(DeleteOrderResponse::OrderNotFound)
    }

    fn get_inventory(&self, _c: &RequestContext) -> Result<GetInventoryResponse, ApiError> {
        Ok(GetInventoryResponse::SuccessfulOperation(vec![("sold".to_string(), 4)]))
    }

    fn get_order_by_id(
        &self,
        _order_id: i64,
        _c: &RequestContext,
    ) -> Result<GetOrderByIdResponse, ApiError> {
        Ok(GetOrderByIdResponse::SuccessfulOperation(sample_order()))
    }

    fn place_order(
        &self,
        order: Option<Order>,
        _c: &RequestContext,
    ) -> Result<PlaceOrderResponse, ApiError> {
        Ok(PlaceOrderResponse::SuccessfulOperation(order.unwrap_or_else(sample_order)))
    }

    fn create_user(
        &self,
        user: Option<User>,
        _c: &RequestContext,
    ) -> Result<CreateUserResponse, ApiError> {
        Ok(CreateUserResponse::SuccessfulOperation(user.unwrap_or_else(sample_user)))
    }

    fn create_users_with_list_input(
        &self,
        user: Option<Vec<User>>,
        _c: &RequestContext,
    ) -> Result<CreateUsersWithListInputResponse, ApiError> {
        match user.and_then(|v| v.into_iter().next()) {
            Some(u) => Ok(CreateUsersWithListInputResponse::SuccessfulOperation(u)),
            None => Ok(CreateUsersWithListInputResponse::SuccessfulOperation_2),
        }
    }

    fn delete_user(
        &self,
        _username: String,
        _c: &RequestContext,
    ) -> Result<DeleteUserResponse, ApiError> {
        Ok(DeleteUserResponse::UserNotFound)
    }

    fn get_user_by_name(
        &self,
        _username: String,
        _c: &RequestContext,
    ) -> Result<GetUserByNameResponse, ApiError> {
        Ok(GetUserByNameResponse::SuccessfulOperation(sample_user()))
    }

    fn login_user(
        &self,
        _username: Option<String>,
        _password: Option<String>,
        _c: &RequestContext,
    ) -> Result<LoginUserResponse, ApiError> {
        Ok(LoginUserResponse::InvalidUsername)
    }

    fn logout_user(&self, _c: &RequestContext) -> Result<LogoutUserResponse, ApiError> {
        Ok(LogoutUserResponse::SuccessfulOperation)
    }

    fn update_user(
        &self,
        _username: String,
        _user: Option<User>,
        _c: &RequestContext,
    ) -> Result<UpdateUserResponse, ApiError> {
        Ok(UpdateUserResponse::SuccessfulOperation)
    }
}

#[test]
fn outcome_status_table() {
    assert_eq!(AddPetResponse::SuccessfulOperation(sample_pet()).status(), 200);
    assert_eq!(AddPetResponse::InvalidInput.status(), 405);
    assert_eq!(DeletePetResponse::InvalidPetValue.status(), 400);
    assert_eq!(FindPetsByStatusResponse::SuccessfulOperation(vec![]).status(), 200);
    assert_eq!(FindPetsByStatusResponse::InvalidStatusValue.status(), 400);
    assert_eq!(FindPetsByTagsResponse::SuccessfulOperation(vec![]).status(), 200);
    assert_eq!(FindPetsByTagsResponse::InvalidTagValue.status(), 400);
    assert_eq!(GetPetByIdResponse::SuccessfulOperation(sample_pet()).status(), 200);
    assert_eq!(GetPetByIdResponse::InvalidIDSupplied.status(), 400);
    assert_eq!(GetPetByIdResponse::PetNotFound.status(), 404);
    assert_eq!(UpdatePetResponse::SuccessfulOperation(sample_pet()).status(), 200);
    assert_eq!(UpdatePetResponse::InvalidIDSupplied.status(), 400);
    assert_eq!(UpdatePetResponse::PetNotFound.status(), 404);
    assert_eq!(UpdatePetResponse::ValidationException.status(), 405);
    assert_eq!(UpdatePetWithFormResponse::InvalidInput.status(), 405);
    assert_eq!(DeleteOrderResponse::InvalidIDSupplied.status(), 400);
    assert_eq!(DeleteOrderResponse::OrderNotFound.status(), 404);
    assert_eq!(GetInventoryResponse::SuccessfulOperation(vec![]).status(), 200);
    assert_eq!(GetOrderByIdResponse::SuccessfulOperation(sample_order()).status(), 200);
    assert_eq!(GetOrderByIdResponse::InvalidIDSupplied.status(), 400);
    assert_eq!(GetOrderByIdResponse::OrderNotFound.status(), 404);
    assert_eq!(PlaceOrderResponse::SuccessfulOperation(sample_order()).status(), 200);
    assert_eq!(PlaceOrderResponse::InvalidInput.status(), 405);
    assert_eq!(CreateUserResponse::SuccessfulOperation(sample_user()).status(), 200);
    assert_eq!(
        CreateUsersWithListInputResponse::SuccessfulOperation(sample_user()).status(),
        200
    );
    assert_eq!(CreateUsersWithListInputResponse::SuccessfulOperation_2.status(), 204);
    assert_eq!(DeleteUserResponse::InvalidUsernameSupplied.status(), 400);
    assert_eq!(DeleteUserResponse::UserNotFound.status(), 404);
    assert_eq!(GetUserByNameResponse::SuccessfulOperation(sample_user()).status(), 200);
    assert_eq!(GetUserByNameResponse::InvalidUsernameSupplied.status(), 400);
    assert_eq!(GetUserByNameResponse::UserNotFound.status(), 404);
    assert_eq!(
        LoginUserResponse::SuccessfulOperation {
            body: "token".to_string(),
            x_rate_limit: None,
            x_expires_after: None,
        }
        .status(),
        200
    );
    assert_eq!(LoginUserResponse::InvalidUsername.status(), 400);
    assert_eq!(LogoutUserResponse::SuccessfulOperation.status(), 200);
    assert_eq!(UpdateUserResponse::SuccessfulOperation.status(), 200);
}

#[test]
fn serialized_outcomes_carry_their_fixed_status() {
    assert_eq!(serialize_add_pet(AddPetResponse::InvalidInput, false).status, 405);
    assert_eq!(
        serialize_add_pet(AddPetResponse::SuccessfulOperation(sample_pet()), false).status,
        200
    );
    assert_eq!(serialize_delete_pet(DeletePetResponse::InvalidPetValue, false).status, 400);
    assert_eq!(
        serialize_find_pets_by_status(FindPetsByStatusResponse::InvalidStatusValue, false).status,
        400
    );
    assert_eq!(
        serialize_find_pets_by_tags(FindPetsByTagsResponse::SuccessfulOperation(vec![]), false)
            .status,
        200
    );
    assert_eq!(serialize_get_pet_by_id(GetPetByIdResponse::PetNotFound, false).status, 404);
    assert_eq!(serialize_update_pet(UpdatePetResponse::ValidationException, false).status, 405);
    assert_eq!(
        serialize_update_pet_with_form(UpdatePetWithFormResponse::InvalidInput, false).status,
        405
    );
    assert_eq!(serialize_delete_order(DeleteOrderResponse::InvalidIDSupplied, false).status, 400);
    assert_eq!(
        serialize_get_inventory(GetInventoryResponse::SuccessfulOperation(vec![]), false).status,
        200
    );
    assert_eq!(serialize_get_order_by_id(GetOrderByIdResponse::OrderNotFound, false).status, 404);
    assert_eq!(serialize_place_order(PlaceOrderResponse::InvalidInput, false).status, 405);
    assert_eq!(
        serialize_create_user(CreateUserResponse::SuccessfulOperation(sample_user()), false)
            .status,
        200
    );
    assert_eq!(
        serialize_create_users_with_list_input(
            CreateUsersWithListInputResponse::SuccessfulOperation_2,
            false,
        )
        .status,
        204
    );
    assert_eq!(serialize_delete_user(DeleteUserResponse::UserNotFound, false).status, 404);
    assert_eq!(
        serialize_get_user_by_name(GetUserByNameResponse::InvalidUsernameSupplied, false).status,
        400
    );
    assert_eq!(serialize_login_user(LoginUserResponse::InvalidUsername, false).status, 400);
    assert_eq!(serialize_logout_user(LogoutUserResponse::SuccessfulOperation, false).status, 200);
    assert_eq!(serialize_update_user(UpdateUserResponse::SuccessfulOperation, false).status, 200);
}

#[test]
fn login_success_carries_headers_and_token_body() {
    let resp = serialize_login_user(
        LoginUserResponse::SuccessfulOperation {
            body: "token".to_string(),
            x_rate_limit: Some(3),
            x_expires_after: petstore_api::datetime::UtcDateTime::parse("2021-03-01T09:00:00Z"),
        },
        false,
    );
    assert_eq!(resp.status, 200);
    let names: Vec<&str> = resp.headers.iter().map(|(n, _)| n.as_str()).collect();
    assert_eq!(names, vec!["content-type", "x-rate-limit", "x-expires-after"]);
    assert_eq!(resp.headers[1].1, "3");
    assert_eq!(resp.headers[2].1, "2021-03-01T09:00:00Z");
    match resp.body {
        Body::Doc(Document::Str(s)) => assert_eq!(s, "token"),
        _ => panic!("expected a text document body"),
    }
}

#[test]
fn create_pet_scenario_round_trips_through_the_wire() {
    let api = StubApi::new();
    let ctx = RequestContext::empty();
    let pet = sample_pet();
    let body = pet.encode_structured();
    let resp = dispatch_add_pet(&api, &ctx, Some(&body), false);
    assert_eq!(resp.status, 200);
    assert_eq!(api.add_pet_calls.get(), 1);
    match resp.body {
        Body::Doc(doc) => {
            let round = Pet::decode_structured(&doc).expect("body must decode");
            assert_eq!(round, pet);
        },
        _ => panic!("expected a structured body"),
    }
}

#[test]
fn invalid_input_short_circuits_before_the_handler() {
    let api = StubApi::new();
    let ctx = RequestContext::empty();
    // a required field (name) is missing from the body
    let body = Document::Obj(vec![("photoUrls".to_string(), Document::Arr(vec![]))]);
    let resp = dispatch_add_pet(&api, &ctx, Some(&body), false);
    assert_eq!(resp.status, 400);
    assert_eq!(api.add_pet_calls.get(), 0);
    // a missing required body short-circuits too
    let resp = dispatch_add_pet(&api, &ctx, None, false);
    assert_eq!(resp.status, 400);
    assert_eq!(api.add_pet_calls.get(), 0);
    match resp.body {
        Body::Empty => {},
        _ => panic!("expected an empty body"),
    }
}

#[test]
fn handler_fault_becomes_a_bare_server_error() {
    let api = StubApi::new();
    let ctx = RequestContext::empty();
    let resp = dispatch_get_pet_by_id(&api, &ctx, -1, false);
    assert_eq!(resp.status, 500);
    assert!(resp.headers.is_empty());
    match resp.body {
        Body::Empty => {},
        _ => panic!("a fault must not leak a body"),
    }
}

#[test]
fn get_pet_dispatch_serializes_the_outcome() {
    let api = StubApi::new();
    let ctx = RequestContext::empty();
    assert_eq!(dispatch_get_pet_by_id(&api, &ctx, 10, false).status, 200);
    assert_eq!(dispatch_get_pet_by_id(&api, &ctx, 11, false).status, 404);
}

#[test]
fn user_list_body_is_validated_elementwise() {
    let api = StubApi::new();
    let ctx = RequestContext::empty();
    let good = Document::Arr(vec![sample_user().encode_structured()]);
    assert_eq!(
        dispatch_create_users_with_list_input(&api, &ctx, Some(&good), false).status,
        200
    );
    let bad = Document::Arr(vec![Document::Int(3)]);
    assert_eq!(
        dispatch_create_users_with_list_input(&api, &ctx, Some(&bad), false).status,
        400
    );
    let not_a_list = Document::Str("nope".to_string());
    assert_eq!(
        dispatch_create_users_with_list_input(&api, &ctx, Some(&not_a_list), false).status,
        400
    );
}

#[test]
fn alternate_negotiation_renders_markup_bodies() {
    let api = StubApi::new();
    let ctx = RequestContext::empty();
    let resp = dispatch_get_pet_by_id(&api, &ctx, 10, true);
    assert_eq!(resp.status, 200);
    assert_eq!(resp.headers[0].1, "application/xml");
    match resp.body {
        Body::Text(t) => assert!(t.starts_with("<pet>") && t.ends_with("</pet>")),
        _ => panic!("expected a rendered markup body"),
    }
}

#[test]
fn context_wrapper_binds_api_and_context() {
    let wrapped: ContextWrapper<StubApi, RequestContext> =
        StubApi::new().with_context(RequestContext::empty());
    assert_eq!(wrapped.context().identity, None);
    let resp = wrapped
        .api()
        .logout_user(wrapped.context())
        .expect("stub never faults");
    assert_eq!(resp.status(), 200);
}
