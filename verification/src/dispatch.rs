//! The operation dispatcher: for each operation, validate the parsed
//! inputs, invoke the bound handler, and map its outcome onto the wire.
//!
//! Input validation happens before the handler runs: a missing or
//! malformed body answers with a plain invalid-input status and the
//! handler is never invoked. Every outcome variant serializes to the one
//! status code fixed for it, with its payload in the negotiated form; a
//! handler fault becomes a bare server-error response that exposes no
//! detail.

use vstd::prelude::*;

use crate::document::{DocView, Document};
use crate::http::{Body, BodyView, HttpResponse, HttpResponseView, RequestContext, headers_view};
use crate::models::{Order, Pet, User};
use crate::nums::{i32_to_string, i64_dec};
use crate::outcome::{
    AddPetResponse, CreateUserResponse, CreateUsersWithListInputResponse, DeleteOrderResponse,
    DeletePetResponse, DeleteUserResponse, FindPetsByStatusResponse, FindPetsByTagsResponse,
    GetInventoryResponse, GetOrderByIdResponse, GetPetByIdResponse, GetUserByNameResponse,
    LoginUserResponse, LogoutUserResponse, PlaceOrderResponse, UpdatePetResponse,
    UpdatePetWithFormResponse, UpdateUserResponse,
};
use crate::structured::{
    decode_structured_order_spec, decode_structured_pet_spec, decode_structured_user_spec,
    decode_user_list, decode_user_list_exec, docs_view, encode_inventory, encode_pet_list,
    inventory_doc, inventory_view, order_doc, pet_doc, pet_list_doc, user_doc,
};
use crate::xml::{xml_of, xml_render};

verus! {

/// A failure inside a handler. The dispatcher turns it into a bare
/// server-error response; its text is never sent to the caller.
#[derive(Debug, Clone, PartialEq)]
pub struct ApiError(pub String);

/// The bound handler: one method per operation. A handler reports its
/// result as the operation's outcome, or an `ApiError` for an unexpected
/// internal fault.
pub trait Api {
    /// Add a new pet to the store.
    fn add_pet(&self, pet: Pet, context: &RequestContext) -> Result<AddPetResponse, ApiError>;

    /// Deletes a pet.
    fn delete_pet(&self, pet_id: i64, api_key: Option<String>, context: &RequestContext) -> Result<
        DeletePetResponse,
        ApiError,
    >;

    /// Finds pets by status.
    fn find_pets_by_status(&self, status: Option<String>, context: &RequestContext) -> Result<
        FindPetsByStatusResponse,
        ApiError,
    >;

    /// Finds pets by tags.
    fn find_pets_by_tags(&self, tags: Option<Vec<String>>, context: &RequestContext) -> Result<
        FindPetsByTagsResponse,
        ApiError,
    >;

    /// Find pet by identifier.
    fn get_pet_by_id(&self, pet_id: i64, context: &RequestContext) -> Result<
        GetPetByIdResponse,
        ApiError,
    >;

    /// Update an existing pet.
    fn update_pet(&self, pet: Pet, context: &RequestContext) -> Result<UpdatePetResponse, ApiError>;

    /// Updates a pet in the store with form data.
    fn update_pet_with_form(
        &self,
        pet_id: i64,
        name: Option<String>,
        status: Option<String>,
        context: &RequestContext,
    ) -> Result<UpdatePetWithFormResponse, ApiError>;

    /// Delete purchase order by identifier.
    fn delete_order(&self, order_id: i64, context: &RequestContext) -> Result<
        DeleteOrderResponse,
        ApiError,
    >;

    /// Returns pet inventories by status.
    fn get_inventory(&self, context: &RequestContext) -> Result<GetInventoryResponse, ApiError>;

    /// Find purchase order by identifier.
    fn get_order_by_id(&self, order_id: i64, context: &RequestContext) -> Result<
        GetOrderByIdResponse,
        ApiError,
    >;

    /// Place an order for a pet.
    fn place_order(&self, order: Option<Order>, context: &RequestContext) -> Result<
        PlaceOrderResponse,
        ApiError,
    >;

    /// Create user.
    fn create_user(&self, user: Option<User>, context: &RequestContext) -> Result<
        CreateUserResponse,
        ApiError,
    >;

    /// Creates a list of users from the given input list.
    fn create_users_with_list_input(
        &self,
        user: Option<Vec<User>>,
        context: &RequestContext,
    ) -> Result<CreateUsersWithListInputResponse, ApiError>;

    /// Delete user.
    fn delete_user(&self, username: String, context: &RequestContext) -> Result<
        DeleteUserResponse,
        ApiError,
    >;

    /// Get user by user name.
    fn get_user_by_name(&self, username: String, context: &RequestContext) -> Result<
        GetUserByNameResponse,
        ApiError,
    >;

    /// Logs user into the system.
    fn login_user(
        &self,
        username: Option<String>,
        password: Option<String>,
        context: &RequestContext,
    ) -> Result<LoginUserResponse, ApiError>;

    /// Logs out the current logged-in user session.
    fn logout_user(&self, context: &RequestContext) -> Result<LogoutUserResponse, ApiError>;

    /// Update user.
    fn update_user(&self, username: String, user: Option<User>, context: &RequestContext) -> Result<
        UpdateUserResponse,
        ApiError,
    >;
}

/// Binds an API implementation to one context value, so that callers need
/// not pass the context on every call.
#[derive(Debug, Clone)]
pub struct ContextWrapper<T, C> {
    pub api: T,
    pub context: C,
}

impl<T, C> ContextWrapper<T, C> {
    pub fn new(api: T, context: C) -> (r: Self)
        ensures
            r == (ContextWrapper { api, context }),
    {
        ContextWrapper { api, context }
    }

    pub fn api(&self) -> (r: &T)
        ensures
            r == &self.api,
    {
        &self.api
    }

    pub fn context(&self) -> (r: &C)
        ensures
            r == &self.context,
    {
        &self.context
    }
}

/// Extends an API so it can be bound to a context.
pub trait ContextWrapperExt<C>: Sized {
    /// Binds this API to a context.
    fn with_context(self, context: C) -> ContextWrapper<Self, C>;
}

impl<T: Api, C> ContextWrapperExt<C> for T {
    fn with_context(self, context: C) -> ContextWrapper<T, C> {
        ContextWrapper::new(self, context)
    }
}


/// The handler interface with the context already bound: callers need not
/// pass it on every call.
pub trait ApiNoContext {
    /// The bound context.
    fn context(&self) -> &RequestContext;

    fn add_pet(&self, pet: Pet) -> Result<AddPetResponse, ApiError>;

    fn delete_pet(&self, pet_id: i64, api_key: Option<String>) -> Result<DeletePetResponse, ApiError>;

    fn find_pets_by_status(&self, status: Option<String>) -> Result<FindPetsByStatusResponse, ApiError>;

    fn find_pets_by_tags(&self, tags: Option<Vec<String>>) -> Result<FindPetsByTagsResponse, ApiError>;

    fn get_pet_by_id(&self, pet_id: i64) -> Result<GetPetByIdResponse, ApiError>;

    fn update_pet(&self, pet: Pet) -> Result<UpdatePetResponse, ApiError>;

    fn update_pet_with_form(&self, pet_id: i64, name: Option<String>, status: Option<String>) -> Result<UpdatePetWithFormResponse, ApiError>;

    fn delete_order(&self, order_id: i64) -> Result<DeleteOrderResponse, ApiError>;

    fn get_inventory(&self) -> Result<GetInventoryResponse, ApiError>;

    fn get_order_by_id(&self, order_id: i64) -> Result<GetOrderByIdResponse, ApiError>;

    fn place_order(&self, order: Option<Order>) -> Result<PlaceOrderResponse, ApiError>;

    fn create_user(&self, user: Option<User>) -> Result<CreateUserResponse, ApiError>;

    fn create_users_with_list_input(&self, user: Option<Vec<User>>) -> Result<CreateUsersWithListInputResponse, ApiError>;

    fn delete_user(&self, username: String) -> Result<DeleteUserResponse, ApiError>;

    fn get_user_by_name(&self, username: String) -> Result<GetUserByNameResponse, ApiError>;

    fn login_user(&self, username: Option<String>, password: Option<String>) -> Result<LoginUserResponse, ApiError>;

    fn logout_user(&self) -> Result<LogoutUserResponse, ApiError>;

    fn update_user(&self, username: String, user: Option<User>) -> Result<UpdateUserResponse, ApiError>;
}

impl<T: Api> ApiNoContext for ContextWrapper<T, RequestContext> {
    fn context(&self) -> &RequestContext {
        &self.context
    }

    fn add_pet(&self, pet: Pet) -> Result<AddPetResponse, ApiError> {
        self.api.add_pet(pet, &self.context)
    }

    fn delete_pet(&self, pet_id: i64, api_key: Option<String>) -> Result<DeletePetResponse, ApiError> {
        self.api.delete_pet(pet_id, api_key, &self.context)
    }

    fn find_pets_by_status(&self, status: Option<String>) -> Result<FindPetsByStatusResponse, ApiError> {
        self.api.find_pets_by_status(status, &self.context)
    }

    fn find_pets_by_tags(&self, tags: Option<Vec<String>>) -> Result<FindPetsByTagsResponse, ApiError> {
        self.api.find_pets_by_tags(tags, &self.context)
    }

    fn get_pet_by_id(&self, pet_id: i64) -> Result<GetPetByIdResponse, ApiError> {
        self.api.get_pet_by_id(pet_id, &self.context)
    }

    fn update_pet(&self, pet: Pet) -> Result<UpdatePetResponse, ApiError> {
        self.api.update_pet(pet, &self.context)
    }

    fn update_pet_with_form(&self, pet_id: i64, name: Option<String>, status: Option<String>) -> Result<UpdatePetWithFormResponse, ApiError> {
        self.api.update_pet_with_form(pet_id, name, status, &self.context)
    }

    fn delete_order(&self, order_id: i64) -> Result<DeleteOrderResponse, ApiError> {
        self.api.delete_order(order_id, &self.context)
    }

    fn get_inventory(&self) -> Result<GetInventoryResponse, ApiError> {
        self.api.get_inventory(&self.context)
    }

    fn get_order_by_id(&self, order_id: i64) -> Result<GetOrderByIdResponse, ApiError> {
        self.api.get_order_by_id(order_id, &self.context)
    }

    fn place_order(&self, order: Option<Order>) -> Result<PlaceOrderResponse, ApiError> {
        self.api.place_order(order, &self.context)
    }

    fn create_user(&self, user: Option<User>) -> Result<CreateUserResponse, ApiError> {
        self.api.create_user(user, &self.context)
    }

    fn create_users_with_list_input(&self, user: Option<Vec<User>>) -> Result<CreateUsersWithListInputResponse, ApiError> {
        self.api.create_users_with_list_input(user, &self.context)
    }

    fn delete_user(&self, username: String) -> Result<DeleteUserResponse, ApiError> {
        self.api.delete_user(username, &self.context)
    }

    fn get_user_by_name(&self, username: String) -> Result<GetUserByNameResponse, ApiError> {
        self.api.get_user_by_name(username, &self.context)
    }

    fn login_user(&self, username: Option<String>, password: Option<String>) -> Result<LoginUserResponse, ApiError> {
        self.api.login_user(username, password, &self.context)
    }

    fn logout_user(&self) -> Result<LogoutUserResponse, ApiError> {
        self.api.logout_user(&self.context)
    }

    fn update_user(&self, username: String, user: Option<User>) -> Result<UpdateUserResponse, ApiError> {
        self.api.update_user(username, user, &self.context)
    }
}

/// The negotiated content type's name.
pub open spec fn content_type_text(alt: bool) -> Seq<char> {
    if alt {
        "application/xml"@
    } else {
        "application/json"@
    }
}

/// A response carrying a payload document in the negotiated form, under
/// one content-type header.
pub open spec fn payload_response(status: u16, alt: bool, root: Seq<char>, doc: DocView)
    -> HttpResponseView {
    HttpResponseView {
        status,
        headers: seq![("content-type"@, content_type_text(alt))],
        body: if alt {
            BodyView::Text(xml_of(root, doc))
        } else {
            BodyView::Doc(doc)
        },
    }
}

/// A bare response: a status code, no headers, no body.
pub open spec fn empty_response(status: u16) -> HttpResponseView {
    HttpResponseView { status, headers: Seq::empty(), body: BodyView::Empty }
}

fn ct_headers(alt: bool) -> (r: Vec<(String, String)>)
    ensures
        headers_view(r@) == seq![("content-type"@, content_type_text(alt))],
{
    let mut hs: Vec<(String, String)> = Vec::new();
    if alt {
        hs.push((String::from_str("content-type"), String::from_str("application/xml")));
    } else {
        hs.push((String::from_str("content-type"), String::from_str("application/json")));
    }
    proof {
        assert(headers_view(hs@) =~= seq![("content-type"@, content_type_text(alt))]);
    }
    hs
}

fn respond_empty(status: u16) -> (r: HttpResponse)
    ensures
        r@ == empty_response(status),
{
    let r = HttpResponse { status, headers: Vec::new(), body: Body::Empty };
    proof {
        assert(r@.headers =~= Seq::<(Seq<char>, Seq<char>)>::empty());
    }
    r
}

fn respond_payload(status: u16, alt: bool, root: &str, doc: Document) -> (r: HttpResponse)
    ensures
        r@ == payload_response(status, alt, root@, doc@),
{
    if alt {
        let text = xml_render(root, &doc);
        HttpResponse { status, headers: ct_headers(true), body: Body::Text(text) }
    } else {
        HttpResponse { status, headers: ct_headers(false), body: Body::Doc(doc) }
    }
}


/// The wire mapping of this operation's outcomes: each variant answers
/// with exactly its fixed status code, and its payload, if any, in the
/// negotiated form.
pub open spec fn spec_serialize_add_pet(resp: AddPetResponse, alt: bool) -> HttpResponseView {
    match resp {
        AddPetResponse::SuccessfulOperation(p) => payload_response(200, alt, "pet"@, pet_doc(p@)),
        AddPetResponse::InvalidInput => empty_response(405),
    }
}

pub fn serialize_add_pet(resp: AddPetResponse, alt: bool) -> (r: HttpResponse)
    ensures
        r@ == spec_serialize_add_pet(resp, alt),
        r@.status == resp.spec_status(),
{
    match resp {
        AddPetResponse::SuccessfulOperation(p) => {
            let doc = p.encode_structured();
            respond_payload(200, alt, "pet", doc)
        },
        AddPetResponse::InvalidInput => respond_empty(405),
    }
}


/// The wire mapping of this operation's outcomes: each variant answers
/// with exactly its fixed status code, and its payload, if any, in the
/// negotiated form.
pub open spec fn spec_serialize_delete_pet(resp: DeletePetResponse, alt: bool) -> HttpResponseView {
    match resp {
        DeletePetResponse::InvalidPetValue => empty_response(400),
    }
}

pub fn serialize_delete_pet(resp: DeletePetResponse, alt: bool) -> (r: HttpResponse)
    ensures
        r@ == spec_serialize_delete_pet(resp, alt),
        r@.status == resp.spec_status(),
{
    match resp {
        DeletePetResponse::InvalidPetValue => respond_empty(400),
    }
}


/// The wire mapping of this operation's outcomes: each variant answers
/// with exactly its fixed status code, and its payload, if any, in the
/// negotiated form.
pub open spec fn spec_serialize_find_pets_by_status(resp: FindPetsByStatusResponse, alt: bool) -> HttpResponseView {
    match resp {
        FindPetsByStatusResponse::SuccessfulOperation(pets) => payload_response(200, alt, "pet"@, DocView::Arr(pet_list_doc(pets@.map_values(|p: Pet| p@)))),
        FindPetsByStatusResponse::InvalidStatusValue => empty_response(400),
    }
}

pub fn serialize_find_pets_by_status(resp: FindPetsByStatusResponse, alt: bool) -> (r: HttpResponse)
    ensures
        r@ == spec_serialize_find_pets_by_status(resp, alt),
        r@.status == resp.spec_status(),
{
    match resp {
        FindPetsByStatusResponse::SuccessfulOperation(pets) => {
            let doc = Document::Arr(encode_pet_list(&pets));
            proof {
                assert(doc@ matches DocView::Arr(els) && els =~= pet_list_doc(
                    pets@.map_values(|p: Pet| p@),
                ));
                assert(doc@ == DocView::Arr(pet_list_doc(pets@.map_values(|p: Pet| p@))));
            }
            respond_payload(200, alt, "pet", doc)
        },
        FindPetsByStatusResponse::InvalidStatusValue => respond_empty(400),
    }
}


/// The wire mapping of this operation's outcomes: each variant answers
/// with exactly its fixed status code, and its payload, if any, in the
/// negotiated form.
pub open spec fn spec_serialize_find_pets_by_tags(resp: FindPetsByTagsResponse, alt: bool) -> HttpResponseView {
    match resp {
        FindPetsByTagsResponse::SuccessfulOperation(pets) => payload_response(200, alt, "pet"@, DocView::Arr(pet_list_doc(pets@.map_values(|p: Pet| p@)))),
        FindPetsByTagsResponse::InvalidTagValue => empty_response(400),
    }
}

pub fn serialize_find_pets_by_tags(resp: FindPetsByTagsResponse, alt: bool) -> (r: HttpResponse)
    ensures
        r@ == spec_serialize_find_pets_by_tags(resp, alt),
        r@.status == resp.spec_status(),
{
    match resp {
        FindPetsByTagsResponse::SuccessfulOperation(pets) => {
            let doc = Document::Arr(encode_pet_list(&pets));
            proof {
                assert(doc@ matches DocView::Arr(els) && els =~= pet_list_doc(
                    pets@.map_values(|p: Pet| p@),
                ));
                assert(doc@ == DocView::Arr(pet_list_doc(pets@.map_values(|p: Pet| p@))));
            }
            respond_payload(200, alt, "pet", doc)
        },
        FindPetsByTagsResponse::InvalidTagValue => respond_empty(400),
    }
}


/// The wire mapping of this operation's outcomes: each variant answers
/// with exactly its fixed status code, and its payload, if any, in the
/// negotiated form.
pub open spec fn spec_serialize_get_pet_by_id(resp: GetPetByIdResponse, alt: bool) -> HttpResponseView {
    match resp {
        GetPetByIdResponse::SuccessfulOperation(p) => payload_response(200, alt, "pet"@, pet_doc(p@)),
        GetPetByIdResponse::InvalidIDSupplied => empty_response(400),
        GetPetByIdResponse::PetNotFound => empty_response(404),
    }
}

pub fn serialize_get_pet_by_id(resp: GetPetByIdResponse, alt: bool) -> (r: HttpResponse)
    ensures
        r@ == spec_serialize_get_pet_by_id(resp, alt),
        r@.status == resp.spec_status(),
{
    match resp {
        GetPetByIdResponse::SuccessfulOperation(p) => {
            let doc = p.encode_structured();
            respond_payload(200, alt, "pet", doc)
        },
        GetPetByIdResponse::InvalidIDSupplied => respond_empty(400),
        GetPetByIdResponse::PetNotFound => respond_empty(404),
    }
}


/// The wire mapping of this operation's outcomes: each variant answers
/// with exactly its fixed status code, and its payload, if any, in the
/// negotiated form.
pub open spec fn spec_serialize_update_pet(resp: UpdatePetResponse, alt: bool) -> HttpResponseView {
    match resp {
        UpdatePetResponse::SuccessfulOperation(p) => payload_response(200, alt, "pet"@, pet_doc(p@)),
        UpdatePetResponse::InvalidIDSupplied => empty_response(400),
        UpdatePetResponse::PetNotFound => empty_response(404),
        UpdatePetResponse::ValidationException => empty_response(405),
    }
}

pub fn serialize_update_pet(resp: UpdatePetResponse, alt: bool) -> (r: HttpResponse)
    ensures
        r@ == spec_serialize_update_pet(resp, alt),
        r@.status == resp.spec_status(),
{
    match resp {
        UpdatePetResponse::SuccessfulOperation(p) => {
            let doc = p.encode_structured();
            respond_payload(200, alt, "pet", doc)
        },
        UpdatePetResponse::InvalidIDSupplied => respond_empty(400),
        UpdatePetResponse::PetNotFound => respond_empty(404),
        UpdatePetResponse::ValidationException => respond_empty(405),
    }
}


/// The wire mapping of this operation's outcomes: each variant answers
/// with exactly its fixed status code, and its payload, if any, in the
/// negotiated form.
pub open spec fn spec_serialize_update_pet_with_form(resp: UpdatePetWithFormResponse, alt: bool) -> HttpResponseView {
    match resp {
        UpdatePetWithFormResponse::InvalidInput => empty_response(405),
    }
}

pub fn serialize_update_pet_with_form(resp: UpdatePetWithFormResponse, alt: bool) -> (r: HttpResponse)
    ensures
        r@ == spec_serialize_update_pet_with_form(resp, alt),
        r@.status == resp.spec_status(),
{
    match resp {
        UpdatePetWithFormResponse::InvalidInput => respond_empty(405),
    }
}


/// The wire mapping of this operation's outcomes: each variant answers
/// with exactly its fixed status code, and its payload, if any, in the
/// negotiated form.
pub open spec fn spec_serialize_delete_order(resp: DeleteOrderResponse, alt: bool) -> HttpResponseView {
    match resp {
        DeleteOrderResponse::InvalidIDSupplied => empty_response(400),
        DeleteOrderResponse::OrderNotFound => empty_response(404),
    }
}

pub fn serialize_delete_order(resp: DeleteOrderResponse, alt: bool) -> (r: HttpResponse)
    ensures
        r@ == spec_serialize_delete_order(resp, alt),
        r@.status == resp.spec_status(),
{
    match resp {
        DeleteOrderResponse::InvalidIDSupplied => respond_empty(400),
        DeleteOrderResponse::OrderNotFound => respond_empty(404),
    }
}


/// The wire mapping of this operation's outcomes: each variant answers
/// with exactly its fixed status code, and its payload, if any, in the
/// negotiated form.
pub open spec fn spec_serialize_get_inventory(resp: GetInventoryResponse, alt: bool) -> HttpResponseView {
    match resp {
        GetInventoryResponse::SuccessfulOperation(items) => payload_response(
            200,
            alt,
            "inventory"@,
            inventory_doc(inventory_view(items@)),
        ),
    }
}

pub fn serialize_get_inventory(resp: GetInventoryResponse, alt: bool) -> (r: HttpResponse)
    ensures
        r@ == spec_serialize_get_inventory(resp, alt),
        r@.status == resp.spec_status(),
{
    match resp {
        GetInventoryResponse::SuccessfulOperation(items) => {
            let doc = encode_inventory(&items);
            respond_payload(200, alt, "inventory", doc)
        },
    }
}


/// The wire mapping of this operation's outcomes: each variant answers
/// with exactly its fixed status code, and its payload, if any, in the
/// negotiated form.
pub open spec fn spec_serialize_get_order_by_id(resp: GetOrderByIdResponse, alt: bool) -> HttpResponseView {
    match resp {
        GetOrderByIdResponse::SuccessfulOperation(o) => payload_response(200, alt, "order"@, order_doc(o@)),
        GetOrderByIdResponse::InvalidIDSupplied => empty_response(400),
        GetOrderByIdResponse::OrderNotFound => empty_response(404),
    }
}

pub fn serialize_get_order_by_id(resp: GetOrderByIdResponse, alt: bool) -> (r: HttpResponse)
    ensures
        r@ == spec_serialize_get_order_by_id(resp, alt),
        r@.status == resp.spec_status(),
{
    match resp {
        GetOrderByIdResponse::SuccessfulOperation(o) => {
            let doc = o.encode_structured();
            respond_payload(200, alt, "order", doc)
        },
        GetOrderByIdResponse::InvalidIDSupplied => respond_empty(400),
        GetOrderByIdResponse::OrderNotFound => respond_empty(404),
    }
}


/// The wire mapping of this operation's outcomes: each variant answers
/// with exactly its fixed status code, and its payload, if any, in the
/// negotiated form.
pub open spec fn spec_serialize_place_order(resp: PlaceOrderResponse, alt: bool) -> HttpResponseView {
    match resp {
        PlaceOrderResponse::SuccessfulOperation(o) => payload_response(200, alt, "order"@, order_doc(o@)),
        PlaceOrderResponse::InvalidInput => empty_response(405),
    }
}

pub fn serialize_place_order(resp: PlaceOrderResponse, alt: bool) -> (r: HttpResponse)
    ensures
        r@ == spec_serialize_place_order(resp, alt),
        r@.status == resp.spec_status(),
{
    match resp {
        PlaceOrderResponse::SuccessfulOperation(o) => {
            let doc = o.encode_structured();
            respond_payload(200, alt, "order", doc)
        },
        PlaceOrderResponse::InvalidInput => respond_empty(405),
    }
}


/// The wire mapping of this operation's outcomes: each variant answers
/// with exactly its fixed status code, and its payload, if any, in the
/// negotiated form.
pub open spec fn spec_serialize_create_user(resp: CreateUserResponse, alt: bool) -> HttpResponseView {
    match resp {
        CreateUserResponse::SuccessfulOperation(u) => payload_response(200, alt, "user"@, user_doc(u@)),
    }
}

pub fn serialize_create_user(resp: CreateUserResponse, alt: bool) -> (r: HttpResponse)
    ensures
        r@ == spec_serialize_create_user(resp, alt),
        r@.status == resp.spec_status(),
{
    match resp {
        CreateUserResponse::SuccessfulOperation(u) => {
            let doc = u.encode_structured();
            respond_payload(200, alt, "user", doc)
        },
    }
}


/// The wire mapping of this operation's outcomes: each variant answers
/// with exactly its fixed status code, and its payload, if any, in the
/// negotiated form.
pub open spec fn spec_serialize_create_users_with_list_input(resp: CreateUsersWithListInputResponse, alt: bool) -> HttpResponseView {
    match resp {
        CreateUsersWithListInputResponse::SuccessfulOperation(u) => payload_response(
            200,
            alt,
            "user"@,
            user_doc(u@),
        ),
        CreateUsersWithListInputResponse::SuccessfulOperation_2 => empty_response(204),
    }
}

pub fn serialize_create_users_with_list_input(resp: CreateUsersWithListInputResponse, alt: bool) -> (r: HttpResponse)
    ensures
        r@ == spec_serialize_create_users_with_list_input(resp, alt),
        r@.status == resp.spec_status(),
{
    match resp {
        CreateUsersWithListInputResponse::SuccessfulOperation(u) => {
            let doc = u.encode_structured();
            respond_payload(200, alt, "user", doc)
        },
        CreateUsersWithListInputResponse::SuccessfulOperation_2 => respond_empty(204),
    }
}


/// The wire mapping of this operation's outcomes: each variant answers
/// with exactly its fixed status code, and its payload, if any, in the
/// negotiated form.
pub open spec fn spec_serialize_delete_user(resp: DeleteUserResponse, alt: bool) -> HttpResponseView {
    match resp {
        DeleteUserResponse::InvalidUsernameSupplied => empty_response(400),
        DeleteUserResponse::UserNotFound => empty_response(404),
    }
}

pub fn serialize_delete_user(resp: DeleteUserResponse, alt: bool) -> (r: HttpResponse)
    ensures
        r@ == spec_serialize_delete_user(resp, alt),
        r@.status == resp.spec_status(),
{
    match resp {
        DeleteUserResponse::InvalidUsernameSupplied => respond_empty(400),
        DeleteUserResponse::UserNotFound => respond_empty(404),
    }
}


/// The wire mapping of this operation's outcomes: each variant answers
/// with exactly its fixed status code, and its payload, if any, in the
/// negotiated form.
pub open spec fn spec_serialize_get_user_by_name(resp: GetUserByNameResponse, alt: bool) -> HttpResponseView {
    match resp {
        GetUserByNameResponse::SuccessfulOperation(u) => payload_response(200, alt, "user"@, user_doc(u@)),
        GetUserByNameResponse::InvalidUsernameSupplied => empty_response(400),
        GetUserByNameResponse::UserNotFound => empty_response(404),
    }
}

pub fn serialize_get_user_by_name(resp: GetUserByNameResponse, alt: bool) -> (r: HttpResponse)
    ensures
        r@ == spec_serialize_get_user_by_name(resp, alt),
        r@.status == resp.spec_status(),
{
    match resp {
        GetUserByNameResponse::SuccessfulOperation(u) => {
            let doc = u.encode_structured();
            respond_payload(200, alt, "user", doc)
        },
        GetUserByNameResponse::InvalidUsernameSupplied => respond_empty(400),
        GetUserByNameResponse::UserNotFound => respond_empty(404),
    }
}


/// The wire mapping of the login outcomes: success answers with the
/// session text as the body and the rate-limit and expiry values as
/// response headers.
pub open spec fn spec_serialize_login_user(resp: LoginUserResponse, alt: bool) -> HttpResponseView {
    match resp {
        LoginUserResponse::SuccessfulOperation { body, x_rate_limit, x_expires_after } => HttpResponseView {
            status: 200,
            headers: seq![("content-type"@, content_type_text(alt))] + (match x_rate_limit {
                Some(n) => seq![("x-rate-limit"@, i64_dec(n as int))],
                None => seq![],
            }) + (match x_expires_after {
                Some(d) => seq![("x-expires-after"@, d@)],
                None => seq![],
            }),
            body: if alt {
                BodyView::Text(xml_of("response"@, DocView::Str(body@)))
            } else {
                BodyView::Doc(DocView::Str(body@))
            },
        },
        LoginUserResponse::InvalidUsername => empty_response(400),
    }
}

pub fn serialize_login_user(resp: LoginUserResponse, alt: bool) -> (r: HttpResponse)
    ensures
        r@ == spec_serialize_login_user(resp, alt),
        r@.status == resp.spec_status(),
{
    match resp {
        LoginUserResponse::SuccessfulOperation { body, x_rate_limit, x_expires_after } => {
            let ghost rl = x_rate_limit;
            let ghost exp = crate::models::opt_view(x_expires_after);
            let mut hs = ct_headers(alt);
            let ghost p1 = seq![("content-type"@, content_type_text(alt))];
            if let Some(n) = x_rate_limit {
                hs.push((String::from_str("x-rate-limit"), i32_to_string(n)));
            }
            let ghost p2 = p1 + (match rl {
                Some(n) => seq![("x-rate-limit"@, i64_dec(n as int))],
                None => seq![],
            });
            proof {
                assert(headers_view(hs@) =~= p2);
            }
            if let Some(d) = &x_expires_after {
                hs.push((String::from_str("x-expires-after"), String::from_str(d.as_str())));
            }
            let ghost p3 = p2 + (match exp {
                Some(s) => seq![("x-expires-after"@, s)],
                None => seq![],
            });
            proof {
                assert(headers_view(hs@) =~= p3);
            }
            let b = if alt {
                let doc = Document::Str(body);
                Body::Text(xml_render("response", &doc))
            } else {
                Body::Doc(Document::Str(body))
            };
            HttpResponse { status: 200, headers: hs, body: b }
        },
        LoginUserResponse::InvalidUsername => respond_empty(400),
    }
}


/// The wire mapping of this operation's outcomes: each variant answers
/// with exactly its fixed status code, and its payload, if any, in the
/// negotiated form.
pub open spec fn spec_serialize_logout_user(resp: LogoutUserResponse, alt: bool) -> HttpResponseView {
    match resp {
        LogoutUserResponse::SuccessfulOperation => empty_response(200),
    }
}

pub fn serialize_logout_user(resp: LogoutUserResponse, alt: bool) -> (r: HttpResponse)
    ensures
        r@ == spec_serialize_logout_user(resp, alt),
        r@.status == resp.spec_status(),
{
    match resp {
        LogoutUserResponse::SuccessfulOperation => respond_empty(200),
    }
}


/// The wire mapping of this operation's outcomes: each variant answers
/// with exactly its fixed status code, and its payload, if any, in the
/// negotiated form.
pub open spec fn spec_serialize_update_user(resp: UpdateUserResponse, alt: bool) -> HttpResponseView {
    match resp {
        UpdateUserResponse::SuccessfulOperation => empty_response(200),
    }
}

pub fn serialize_update_user(resp: UpdateUserResponse, alt: bool) -> (r: HttpResponse)
    ensures
        r@ == spec_serialize_update_user(resp, alt),
        r@.status == resp.spec_status(),
{
    match resp {
        UpdateUserResponse::SuccessfulOperation => respond_empty(200),
    }
}


/// Dispatches one exchange of this operation. The required body must be
/// present and decode as its model type; otherwise the exchange answers
/// with a plain invalid-input status and the handler is never invoked.
pub fn dispatch_add_pet<A: Api>(
    api: &A,
    ctx: &RequestContext,
    body: Option<&Document>,
    alt: bool,
) -> (r: HttpResponse)
    ensures
        (match body {
            None => r@ == empty_response(400),
            Some(d) => match decode_structured_pet_spec(d@) {
                Ok(_) => (exists|o: AddPetResponse| r@ == spec_serialize_add_pet(o, alt)) || r@
                    == empty_response(500),
                Err(_) => r@ == empty_response(400),
            },
        }),
{
    let d = match body {
        Some(d) => d,
        None => {
            return respond_empty(400);
        },
    };
    let value = match Pet::decode_structured(d) {
        Ok(v) => v,
        Err(_) => {
            return respond_empty(400);
        },
    };
    match api.add_pet(value, ctx) {
        Ok(resp) => {
            let ghost o = resp;
            let r = serialize_add_pet(resp, alt);
            proof {
                assert(exists|o2: AddPetResponse| r@ == spec_serialize_add_pet(o2, alt));
            }
            r
        },
        Err(_) => respond_empty(500),
    }
}


/// Dispatches one exchange of this operation: the handler's outcome
/// answers with its fixed status and payload; an unexpected handler fault
/// answers with a bare server error.
pub fn dispatch_delete_pet<A: Api>(api: &A, ctx: &RequestContext, pet_id: i64, api_key: Option<String>, alt: bool) -> (r: HttpResponse)
    ensures
        (exists|o: DeletePetResponse| r@ == spec_serialize_delete_pet(o, alt)) || r@ == empty_response(500),
{
    match api.delete_pet(pet_id, api_key, ctx) {
        Ok(resp) => {
            let ghost o = resp;
            let r = serialize_delete_pet(resp, alt);
            proof {
                assert(exists|o2: DeletePetResponse| r@ == spec_serialize_delete_pet(o2, alt));
            }
            r
        },
        Err(_) => respond_empty(500),
    }
}


/// Dispatches one exchange of this operation: the handler's outcome
/// answers with its fixed status and payload; an unexpected handler fault
/// answers with a bare server error.
pub fn dispatch_find_pets_by_status<A: Api>(api: &A, ctx: &RequestContext, status: Option<String>, alt: bool) -> (r: HttpResponse)
    ensures
        (exists|o: FindPetsByStatusResponse| r@ == spec_serialize_find_pets_by_status(o, alt)) || r@ == empty_response(500),
{
    match api.find_pets_by_status(status, ctx) {
        Ok(resp) => {
            let ghost o = resp;
            let r = serialize_find_pets_by_status(resp, alt);
            proof {
                assert(exists|o2: FindPetsByStatusResponse| r@ == spec_serialize_find_pets_by_status(o2, alt));
            }
            r
        },
        Err(_) => respond_empty(500),
    }
}


/// Dispatches one exchange of this operation: the handler's outcome
/// answers with its fixed status and payload; an unexpected handler fault
/// answers with a bare server error.
pub fn dispatch_find_pets_by_tags<A: Api>(api: &A, ctx: &RequestContext, tags: Option<Vec<String>>, alt: bool) -> (r: HttpResponse)
    ensures
        (exists|o: FindPetsByTagsResponse| r@ == spec_serialize_find_pets_by_tags(o, alt)) || r@ == empty_response(500),
{
    match api.find_pets_by_tags(tags, ctx) {
        Ok(resp) => {
            let ghost o = resp;
            let r = serialize_find_pets_by_tags(resp, alt);
            proof {
                assert(exists|o2: FindPetsByTagsResponse| r@ == spec_serialize_find_pets_by_tags(o2, alt));
            }
            r
        },
        Err(_) => respond_empty(500),
    }
}


/// Dispatches one exchange of this operation: the handler's outcome
/// answers with its fixed status and payload; an unexpected handler fault
/// answers with a bare server error.
pub fn dispatch_get_pet_by_id<A: Api>(api: &A, ctx: &RequestContext, pet_id: i64, alt: bool) -> (r: HttpResponse)
    ensures
        (exists|o: GetPetByIdResponse| r@ == spec_serialize_get_pet_by_id(o, alt)) || r@ == empty_response(500),
{
    match api.get_pet_by_id(pet_id, ctx) {
        Ok(resp) => {
            let ghost o = resp;
            let r = serialize_get_pet_by_id(resp, alt);
            proof {
                assert(exists|o2: GetPetByIdResponse| r@ == spec_serialize_get_pet_by_id(o2, alt));
            }
            r
        },
        Err(_) => respond_empty(500),
    }
}


/// Dispatches one exchange of this operation. The required body must be
/// present and decode as its model type; otherwise the exchange answers
/// with a plain invalid-input status and the handler is never invoked.
pub fn dispatch_update_pet<A: Api>(
    api: &A,
    ctx: &RequestContext,
    body: Option<&Document>,
    alt: bool,
) -> (r: HttpResponse)
    ensures
        (match body {
            None => r@ == empty_response(400),
            Some(d) => match decode_structured_pet_spec(d@) {
                Ok(_) => (exists|o: UpdatePetResponse| r@ == spec_serialize_update_pet(o, alt)) || r@
                    == empty_response(500),
                Err(_) => r@ == empty_response(400),
            },
        }),
{
    let d = match body {
        Some(d) => d,
        None => {
            return respond_empty(400);
        },
    };
    let value = match Pet::decode_structured(d) {
        Ok(v) => v,
        Err(_) => {
            return respond_empty(400);
        },
    };
    match api.update_pet(value, ctx) {
        Ok(resp) => {
            let ghost o = resp;
            let r = serialize_update_pet(resp, alt);
            proof {
                assert(exists|o2: UpdatePetResponse| r@ == spec_serialize_update_pet(o2, alt));
            }
            r
        },
        Err(_) => respond_empty(500),
    }
}


/// Dispatches one exchange of this operation: the handler's outcome
/// answers with its fixed status and payload; an unexpected handler fault
/// answers with a bare server error.
pub fn dispatch_update_pet_with_form<A: Api>(api: &A, ctx: &RequestContext, pet_id: i64, name: Option<String>, status: Option<String>, alt: bool) -> (r: HttpResponse)
    ensures
        (exists|o: UpdatePetWithFormResponse| r@ == spec_serialize_update_pet_with_form(o, alt)) || r@ == empty_response(500),
{
    match api.update_pet_with_form(pet_id, name, status, ctx) {
        Ok(resp) => {
            let ghost o = resp;
            let r = serialize_update_pet_with_form(resp, alt);
            proof {
                assert(exists|o2: UpdatePetWithFormResponse| r@ == spec_serialize_update_pet_with_form(o2, alt));
            }
            r
        },
        Err(_) => respond_empty(500),
    }
}


/// Dispatches one exchange of this operation: the handler's outcome
/// answers with its fixed status and payload; an unexpected handler fault
/// answers with a bare server error.
pub fn dispatch_delete_order<A: Api>(api: &A, ctx: &RequestContext, order_id: i64, alt: bool) -> (r: HttpResponse)
    ensures
        (exists|o: DeleteOrderResponse| r@ == spec_serialize_delete_order(o, alt)) || r@ == empty_response(500),
{
    match api.delete_order(order_id, ctx) {
        Ok(resp) => {
            let ghost o = resp;
            let r = serialize_delete_order(resp, alt);
            proof {
                assert(exists|o2: DeleteOrderResponse| r@ == spec_serialize_delete_order(o2, alt));
            }
            r
        },
        Err(_) => respond_empty(500),
    }
}


/// Dispatches one exchange of this operation: the handler's outcome
/// answers with its fixed status and payload; an unexpected handler fault
/// answers with a bare server error.
pub fn dispatch_get_inventory<A: Api>(api: &A, ctx: &RequestContext, alt: bool) -> (r: HttpResponse)
    ensures
        (exists|o: GetInventoryResponse| r@ == spec_serialize_get_inventory(o, alt)) || r@ == empty_response(500),
{
    match api.get_inventory(ctx) {
        Ok(resp) => {
            let ghost o = resp;
            let r = serialize_get_inventory(resp, alt);
            proof {
                assert(exists|o2: GetInventoryResponse| r@ == spec_serialize_get_inventory(o2, alt));
            }
            r
        },
        Err(_) => respond_empty(500),
    }
}


/// Dispatches one exchange of this operation: the handler's outcome
/// answers with its fixed status and payload; an unexpected handler fault
/// answers with a bare server error.
pub fn dispatch_get_order_by_id<A: Api>(api: &A, ctx: &RequestContext, order_id: i64, alt: bool) -> (r: HttpResponse)
    ensures
        (exists|o: GetOrderByIdResponse| r@ == spec_serialize_get_order_by_id(o, alt)) || r@ == empty_response(500),
{
    match api.get_order_by_id(order_id, ctx) {
        Ok(resp) => {
            let ghost o = resp;
            let r = serialize_get_order_by_id(resp, alt);
            proof {
                assert(exists|o2: GetOrderByIdResponse| r@ == spec_serialize_get_order_by_id(o2, alt));
            }
            r
        },
        Err(_) => respond_empty(500),
    }
}


/// Dispatches one exchange of this operation. The body is optional, but a
/// body that is present must decode as its model type; otherwise the
/// exchange answers with a plain invalid-input status and the handler is
/// never invoked.
pub fn dispatch_place_order<A: Api>(
    api: &A,
    ctx: &RequestContext,
    body: Option<&Document>,
    alt: bool,
) -> (r: HttpResponse)
    ensures
        (match body {
            None => (exists|o: PlaceOrderResponse| r@ == spec_serialize_place_order(o, alt)) || r@ == empty_response(
                500,
            ),
            Some(d) => match decode_structured_order_spec(d@) {
                Ok(_) => (exists|o: PlaceOrderResponse| r@ == spec_serialize_place_order(o, alt)) || r@
                    == empty_response(500),
                Err(_) => r@ == empty_response(400),
            },
        }),
{
    let value: Option<Order> = match body {
        None => None,
        Some(d) => match Order::decode_structured(d) {
            Ok(v) => Some(v),
            Err(_) => {
                return respond_empty(400);
            },
        },
    };
    match api.place_order(value, ctx) {
        Ok(resp) => {
            let ghost o = resp;
            let r = serialize_place_order(resp, alt);
            proof {
                assert(exists|o2: PlaceOrderResponse| r@ == spec_serialize_place_order(o2, alt));
            }
            r
        },
        Err(_) => respond_empty(500),
    }
}


/// Dispatches one exchange of this operation. The body is optional, but a
/// body that is present must decode as its model type; otherwise the
/// exchange answers with a plain invalid-input status and the handler is
/// never invoked.
pub fn dispatch_create_user<A: Api>(
    api: &A,
    ctx: &RequestContext,
    body: Option<&Document>,
    alt: bool,
) -> (r: HttpResponse)
    ensures
        (match body {
            None => (exists|o: CreateUserResponse| r@ == spec_serialize_create_user(o, alt)) || r@ == empty_response(
                500,
            ),
            Some(d) => match decode_structured_user_spec(d@) {
                Ok(_) => (exists|o: CreateUserResponse| r@ == spec_serialize_create_user(o, alt)) || r@
                    == empty_response(500),
                Err(_) => r@ == empty_response(400),
            },
        }),
{
    let value: Option<User> = match body {
        None => None,
        Some(d) => match User::decode_structured(d) {
            Ok(v) => Some(v),
            Err(_) => {
                return respond_empty(400);
            },
        },
    };
    match api.create_user(value, ctx) {
        Ok(resp) => {
            let ghost o = resp;
            let r = serialize_create_user(resp, alt);
            proof {
                assert(exists|o2: CreateUserResponse| r@ == spec_serialize_create_user(o2, alt));
            }
            r
        },
        Err(_) => respond_empty(500),
    }
}


/// Dispatches one exchange of this operation. The body is optional, but a
/// body that is present must be a list whose elements decode as users;
/// otherwise the exchange answers with a plain invalid-input status and
/// the handler is never invoked.
pub fn dispatch_create_users_with_list_input<A: Api>(
    api: &A,
    ctx: &RequestContext,
    body: Option<&Document>,
    alt: bool,
) -> (r: HttpResponse)
    ensures
        (match body {
            None => (exists|o: CreateUsersWithListInputResponse|
                r@ == spec_serialize_create_users_with_list_input(o, alt)) || r@
                == empty_response(500),
            Some(d) => match d@ {
                DocView::Arr(items) => match decode_user_list(items, Seq::empty()) {
                    Ok(_) => (exists|o: CreateUsersWithListInputResponse|
                        r@ == spec_serialize_create_users_with_list_input(o, alt)) || r@
                        == empty_response(500),
                    Err(_) => r@ == empty_response(400),
                },
                _ => r@ == empty_response(400),
            },
        }),
{
    let value: Option<Vec<User>> = match body {
        None => None,
        Some(d) => match d {
            Document::Arr(items) => {
                proof {
                    assert(d.dview() matches DocView::Arr(els) && els =~= docs_view(items@));
                }
                match decode_user_list_exec(items) {
                    Ok(v) => Some(v),
                    Err(_) => {
                        return respond_empty(400);
                    },
                }
            },
            _ => {
                return respond_empty(400);
            },
        },
    };
    match api.create_users_with_list_input(value, ctx) {
        Ok(resp) => {
            let ghost o = resp;
            let r = serialize_create_users_with_list_input(resp, alt);
            proof {
                assert(exists|o2: CreateUsersWithListInputResponse|
                    r@ == spec_serialize_create_users_with_list_input(o2, alt));
            }
            r
        },
        Err(_) => respond_empty(500),
    }
}


/// Dispatches one exchange of this operation: the handler's outcome
/// answers with its fixed status and payload; an unexpected handler fault
/// answers with a bare server error.
pub fn dispatch_delete_user<A: Api>(api: &A, ctx: &RequestContext, username: String, alt: bool) -> (r: HttpResponse)
    ensures
        (exists|o: DeleteUserResponse| r@ == spec_serialize_delete_user(o, alt)) || r@ == empty_response(500),
{
    match api.delete_user(username, ctx) {
        Ok(resp) => {
            let ghost o = resp;
            let r = serialize_delete_user(resp, alt);
            proof {
                assert(exists|o2: DeleteUserResponse| r@ == spec_serialize_delete_user(o2, alt));
            }
            r
        },
        Err(_) => respond_empty(500),
    }
}


/// Dispatches one exchange of this operation: the handler's outcome
/// answers with its fixed status and payload; an unexpected handler fault
/// answers with a bare server error.
pub fn dispatch_get_user_by_name<A: Api>(api: &A, ctx: &RequestContext, username: String, alt: bool) -> (r: HttpResponse)
    ensures
        (exists|o: GetUserByNameResponse| r@ == spec_serialize_get_user_by_name(o, alt)) || r@ == empty_response(500),
{
    match api.get_user_by_name(username, ctx) {
        Ok(resp) => {
            let ghost o = resp;
            let r = serialize_get_user_by_name(resp, alt);
            proof {
                assert(exists|o2: GetUserByNameResponse| r@ == spec_serialize_get_user_by_name(o2, alt));
            }
            r
        },
        Err(_) => respond_empty(500),
    }
}


/// Dispatches one exchange of this operation: the handler's outcome
/// answers with its fixed status and payload; an unexpected handler fault
/// answers with a bare server error.
pub fn dispatch_login_user<A: Api>(api: &A, ctx: &RequestContext, username: Option<String>, password: Option<String>, alt: bool) -> (r: HttpResponse)
    ensures
        (exists|o: LoginUserResponse| r@ == spec_serialize_login_user(o, alt)) || r@ == empty_response(500),
{
    match api.login_user(username, password, ctx) {
        Ok(resp) => {
            let ghost o = resp;
            let r = serialize_login_user(resp, alt);
            proof {
                assert(exists|o2: LoginUserResponse| r@ == spec_serialize_login_user(o2, alt));
            }
            r
        },
        Err(_) => respond_empty(500),
    }
}


/// Dispatches one exchange of this operation: the handler's outcome
/// answers with its fixed status and payload; an unexpected handler fault
/// answers with a bare server error.
pub fn dispatch_logout_user<A: Api>(api: &A, ctx: &RequestContext, alt: bool) -> (r: HttpResponse)
    ensures
        (exists|o: LogoutUserResponse| r@ == spec_serialize_logout_user(o, alt)) || r@ == empty_response(500),
{
    match api.logout_user(ctx) {
        Ok(resp) => {
            let ghost o = resp;
            let r = serialize_logout_user(resp, alt);
            proof {
                assert(exists|o2: LogoutUserResponse| r@ == spec_serialize_logout_user(o2, alt));
            }
            r
        },
        Err(_) => respond_empty(500),
    }
}


/// Dispatches one exchange of this operation. The body is optional, but a
/// body that is present must decode as its model type; otherwise the
/// exchange answers with a plain invalid-input status and the handler is
/// never invoked.
pub fn dispatch_update_user<A: Api>(
    api: &A,
    ctx: &RequestContext, username: String,
    body: Option<&Document>,
    alt: bool,
) -> (r: HttpResponse)
    ensures
        (match body {
            None => (exists|o: UpdateUserResponse| r@ == spec_serialize_update_user(o, alt)) || r@ == empty_response(
                500,
            ),
            Some(d) => match decode_structured_user_spec(d@) {
                Ok(_) => (exists|o: UpdateUserResponse| r@ == spec_serialize_update_user(o, alt)) || r@
                    == empty_response(500),
                Err(_) => r@ == empty_response(400),
            },
        }),
{
    let value: Option<User> = match body {
        None => None,
        Some(d) => match User::decode_structured(d) {
            Ok(v) => Some(v),
            Err(_) => {
                return respond_empty(400);
            },
        },
    };
    match api.update_user(username, value, ctx) {
        Ok(resp) => {
            let ghost o = resp;
            let r = serialize_update_user(resp, alt);
            proof {
                assert(exists|o2: UpdateUserResponse| r@ == spec_serialize_update_user(o2, alt));
            }
            r
        },
        Err(_) => respond_empty(500),
    }
}

} // verus!
