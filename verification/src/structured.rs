//! The per-type structured codec.
//!
//! Encoding a model value yields an object document holding every present
//! field under its wire key, in the type's field order. Decoding reads each
//! key back, ignores unknown fields, rejects wrong shapes, and fails with
//! `MissingRequiredField` when a required field is absent.

use vstd::prelude::*;

use crate::datetime::{datetime_ok, UtcDateTime};
use crate::document::{
    get_bool, get_datetime, get_i32, get_i64, get_str, obj_fields_view, obj_lookup, doc_obj_get,
    push_field, DocView, Document,
};
use crate::error::DecodeError;
use crate::flat::res_view;
use crate::models::{
    opt_view, strings_view, Address, AddressView, ApiResponse, ApiResponseView, Category,
    CategoryView, Customer, CustomerView, Order, OrderView, Pet, PetView, Tag, TagView, User,
    UserView,
};

verus! {

/// The fields of an object built from a fixed run of optional entries:
/// present entries keep their order, absent ones leave no field.
pub open spec fn build_fields(entries: Seq<(Seq<char>, Option<DocView>)>) -> Seq<
    (Seq<char>, DocView),
>
    decreases entries.len(),
{
    if entries.len() == 0 {
        Seq::empty()
    } else {
        (match entries[0].1 {
            Some(d) => seq![(entries[0].0, d)],
            None => seq![],
        }) + build_fields(entries.drop_first())
    }
}

pub open spec fn distinct_keys(entries: Seq<(Seq<char>, Option<DocView>)>) -> bool {
    forall|i: int, j: int|
        0 <= i < j < entries.len() ==> #[trigger] entries[i].0 != #[trigger] entries[j].0
}

/// A key none of the entries carries is not found in the built object.
pub proof fn lemma_build_lookup_absent(entries: Seq<(Seq<char>, Option<DocView>)>, k: Seq<char>)
    requires
        forall|i: int| 0 <= i < entries.len() ==> (#[trigger] entries[i].0) != k,
    ensures
        obj_lookup(build_fields(entries), k) == None::<DocView>,
    decreases entries.len(),
{
    if entries.len() > 0 {
        let rest = entries.drop_first();
        assert forall|i: int| 0 <= i < rest.len() implies (#[trigger] rest[i].0) != k by {
            assert(rest[i] == entries[i + 1]);
        }
        lemma_build_lookup_absent(rest, k);
        match entries[0].1 {
            Some(d) => {
                let b = seq![(entries[0].0, d)] + build_fields(rest);
                assert(b[0] == (entries[0].0, d));
                assert(b.drop_first() =~= build_fields(rest));
            },
            None => {
                assert(build_fields(entries) =~= build_fields(rest));
            },
        }
    }
}

/// Looking an entry's key up in the built object gives exactly that
/// entry's value, as long as the keys are distinct.
pub proof fn lemma_build_lookup(entries: Seq<(Seq<char>, Option<DocView>)>, j: int)
    requires
        distinct_keys(entries),
        0 <= j < entries.len(),
    ensures
        obj_lookup(build_fields(entries), entries[j].0) == entries[j].1,
    decreases entries.len(),
{
    let rest = entries.drop_first();
    let k = entries[j].0;
    if j == 0 {
        match entries[0].1 {
            Some(d) => {
                let b = seq![(entries[0].0, d)] + build_fields(rest);
                assert(b[0] == (entries[0].0, d));
            },
            None => {
                assert(build_fields(entries) =~= build_fields(rest));
                assert forall|i: int| 0 <= i < rest.len() implies (#[trigger] rest[i].0) != k by {
                    assert(rest[i] == entries[i + 1]);
                }
                lemma_build_lookup_absent(rest, k);
            },
        }
    } else {
        assert forall|i1: int, j1: int| 0 <= i1 < j1 < rest.len() implies (#[trigger] rest[i1].0)
            != (#[trigger] rest[j1].0) by {
            assert(rest[i1] == entries[i1 + 1]);
            assert(rest[j1] == entries[j1 + 1]);
        }
        assert(rest[j - 1] == entries[j]);
        lemma_build_lookup(rest, j - 1);
        match entries[0].1 {
            Some(d) => {
                let b = seq![(entries[0].0, d)] + build_fields(rest);
                assert(b[0] == (entries[0].0, d));
                assert(entries[0].0 != k);
                assert(b.drop_first() =~= build_fields(rest));
            },
            None => {
                assert(build_fields(entries) =~= build_fields(rest));
            },
        }
    }
}

/// Appending one more entry appends its field, if it is present.
pub proof fn lemma_build_fields_snoc(
    entries: Seq<(Seq<char>, Option<DocView>)>,
    e: (Seq<char>, Option<DocView>),
)
    ensures
        build_fields(entries.push(e)) == build_fields(entries) + (match e.1 {
            Some(d) => seq![(e.0, d)],
            None => seq![],
        }),
    decreases entries.len(),
{
    let p = entries.push(e);
    if entries.len() == 0 {
        assert(p[0] == e);
        assert(p.drop_first() =~= Seq::<(Seq<char>, Option<DocView>)>::empty());
        assert(build_fields(Seq::<(Seq<char>, Option<DocView>)>::empty())
            =~= Seq::<(Seq<char>, DocView)>::empty());
        match e.1 {
            Some(d) => {
                assert(build_fields(p) =~= seq![(e.0, d)]);
                assert(build_fields(entries) + seq![(e.0, d)] =~= seq![(e.0, d)]);
            },
            None => {
                assert(build_fields(p) =~= Seq::<(Seq<char>, DocView)>::empty());
                assert(build_fields(entries) + Seq::<(Seq<char>, DocView)>::empty()
                    =~= Seq::<(Seq<char>, DocView)>::empty());
            },
        }
    } else {
        assert(p[0] == entries[0]);
        assert(p.drop_first() =~= entries.drop_first().push(e));
        lemma_build_fields_snoc(entries.drop_first(), e);
        let tail = (match e.1 {
            Some(d) => seq![(e.0, d)],
            None => seq![],
        });
        let head = (match entries[0].1 {
            Some(d) => seq![(entries[0].0, d)],
            None => seq![],
        });
        assert(build_fields(p) == head + (build_fields(entries.drop_first()) + tail));
        assert(head + (build_fields(entries.drop_first()) + tail) =~= (head + build_fields(
            entries.drop_first(),
        )) + tail);
    }
}

pub open spec fn category_entries(v: CategoryView) -> Seq<(Seq<char>, Option<DocView>)> {
    seq![
        (
            "id"@,
            match v.id {
                Some(n) => Some(DocView::Int(n)),
                None => None,
            },
        ),
        (
            "name"@,
            match v.name {
                Some(s) => Some(DocView::Str(s)),
                None => None,
            },
        ),
    ]
}

/// The structured document of a Category.
pub open spec fn category_doc(v: CategoryView) -> DocView {
    DocView::Obj(build_fields(category_entries(v)))
}

pub open spec fn decode_structured_category_spec(d: DocView) -> Result<CategoryView, DecodeError> {
    match d {
        DocView::Obj(fields) => match get_i64(fields, "id"@) {
            Err(e) => Err(e),
            Ok(id) => match get_str(fields, "name"@) {
                Err(e) => Err(e),
                Ok(name) => Ok(CategoryView { id, name }),
            },
        },
        _ => Err(DecodeError::InvalidValue),
    }
}

impl Category {
    /// The structured document of this value: every present field, in
    /// order, under its wire key.
    pub fn encode_structured(&self) -> (r: Document)
        ensures
            r@ == category_doc(self@),
    {
        let ghost entries = category_entries(self@);
        let mut fields: Vec<(String, Document)> = Vec::new();
        proof {
            assert(entries.take(0) =~= Seq::<(Seq<char>, Option<DocView>)>::empty());
            assert(obj_fields_view(fields@) =~= build_fields(entries.take(0)));
        }
        if let Some(n) = self.id {
            push_field(&mut fields, "id", Document::Int(n));
        }
        proof {
            assert(entries.take(1) =~= entries.take(0).push(entries[0]));
            lemma_build_fields_snoc(entries.take(0), entries[0]);
            assert(obj_fields_view(fields@) =~= build_fields(entries.take(1)));
        }
        if let Some(s) = &self.name {
            push_field(&mut fields, "name", Document::Str(s.clone()));
        }
        proof {
            assert(entries.take(2) =~= entries.take(1).push(entries[1]));
            lemma_build_fields_snoc(entries.take(1), entries[1]);
            assert(obj_fields_view(fields@) =~= build_fields(entries.take(2)));
            assert(entries.take(2) =~= entries);
        }
        let r = Document::Obj(fields);
        proof {
            assert(r@ matches DocView::Obj(fv) && fv =~= obj_fields_view(fields@));
        }
        r
    }

    /// Reads a Category back from a structured document.
    pub fn decode_structured(d: &Document) -> (r: Result<Category, DecodeError>)
        ensures
            res_view(r) == decode_structured_category_spec(d@),
    {
        let fields: &Vec<(String, Document)> = match d {
            Document::Obj(f) => f,
            _ => {
                return Err(DecodeError::InvalidValue);
            },
        };
        let ghost fv = obj_fields_view(fields@);
        proof {
            assert(d@ matches DocView::Obj(g) && g =~= fv);
        }
        let id: Option<i64> = match doc_obj_get(fields, "id") {
            None => None,
            Some(doc) => match doc {
                Document::Int(n) => Some(*n),
                _ => {
                    return Err(DecodeError::InvalidValue);
                },
            },
        };
        let name: Option<String> = match doc_obj_get(fields, "name") {
            None => None,
            Some(doc) => match doc {
                Document::Str(s) => Some(s.clone()),
                _ => {
                    return Err(DecodeError::InvalidValue);
                },
            },
        };
        Ok(Category { id, name })
    }
}

/// A Category decoded from its own structured document is itself.
pub proof fn lemma_structured_round_trip_category(v: CategoryView)
    ensures
        decode_structured_category_spec(category_doc(v)) == Ok::<CategoryView, DecodeError>(v),
{
    reveal_strlit("id");
    reveal_strlit("name");
    let entries = category_entries(v);
    assert(entries[0].0 == "id"@);
    assert(entries[1].0 == "name"@);
    assert("id"@ != "name"@);
    lemma_build_lookup(entries, 0);
    lemma_build_lookup(entries, 1);
}

pub open spec fn tag_entries(v: TagView) -> Seq<(Seq<char>, Option<DocView>)> {
    seq![
        (
            "id"@,
            match v.id {
                Some(n) => Some(DocView::Int(n)),
                None => None,
            },
        ),
        (
            "name"@,
            match v.name {
                Some(s) => Some(DocView::Str(s)),
                None => None,
            },
        ),
    ]
}

/// The structured document of a Tag.
pub open spec fn tag_doc(v: TagView) -> DocView {
    DocView::Obj(build_fields(tag_entries(v)))
}

pub open spec fn decode_structured_tag_spec(d: DocView) -> Result<TagView, DecodeError> {
    match d {
        DocView::Obj(fields) => match get_i64(fields, "id"@) {
            Err(e) => Err(e),
            Ok(id) => match get_str(fields, "name"@) {
                Err(e) => Err(e),
                Ok(name) => Ok(TagView { id, name }),
            },
        },
        _ => Err(DecodeError::InvalidValue),
    }
}

impl Tag {
    /// The structured document of this value.
    pub fn encode_structured(&self) -> (r: Document)
        ensures
            r@ == tag_doc(self@),
    {
        let ghost entries = tag_entries(self@);
        let mut fields: Vec<(String, Document)> = Vec::new();
        proof {
            assert(entries.take(0) =~= Seq::<(Seq<char>, Option<DocView>)>::empty());
            assert(obj_fields_view(fields@) =~= build_fields(entries.take(0)));
        }
        if let Some(n) = self.id {
            push_field(&mut fields, "id", Document::Int(n));
        }
        proof {
            assert(entries.take(1) =~= entries.take(0).push(entries[0]));
            lemma_build_fields_snoc(entries.take(0), entries[0]);
            assert(obj_fields_view(fields@) =~= build_fields(entries.take(1)));
        }
        if let Some(s) = &self.name {
            push_field(&mut fields, "name", Document::Str(s.clone()));
        }
        proof {
            assert(entries.take(2) =~= entries.take(1).push(entries[1]));
            lemma_build_fields_snoc(entries.take(1), entries[1]);
            assert(obj_fields_view(fields@) =~= build_fields(entries.take(2)));
            assert(entries.take(2) =~= entries);
        }
        let r = Document::Obj(fields);
        proof {
            assert(r@ matches DocView::Obj(fv) && fv =~= obj_fields_view(fields@));
        }
        r
    }

    /// Reads a Tag back from a structured document.
    pub fn decode_structured(d: &Document) -> (r: Result<Tag, DecodeError>)
        ensures
            res_view(r) == decode_structured_tag_spec(d@),
    {
        let fields: &Vec<(String, Document)> = match d {
            Document::Obj(f) => f,
            _ => {
                return Err(DecodeError::InvalidValue);
            },
        };
        let ghost fv = obj_fields_view(fields@);
        proof {
            assert(d@ matches DocView::Obj(g) && g =~= fv);
        }
        let id: Option<i64> = match doc_obj_get(fields, "id") {
            None => None,
            Some(doc) => match doc {
                Document::Int(n) => Some(*n),
                _ => {
                    return Err(DecodeError::InvalidValue);
                },
            },
        };
        let name: Option<String> = match doc_obj_get(fields, "name") {
            None => None,
            Some(doc) => match doc {
                Document::Str(s) => Some(s.clone()),
                _ => {
                    return Err(DecodeError::InvalidValue);
                },
            },
        };
        Ok(Tag { id, name })
    }
}

/// A Tag decoded from its own structured document is itself.
pub proof fn lemma_structured_round_trip_tag(v: TagView)
    ensures
        decode_structured_tag_spec(tag_doc(v)) == Ok::<TagView, DecodeError>(v),
{
    reveal_strlit("id");
    reveal_strlit("name");
    let entries = tag_entries(v);
    assert(entries[0].0 == "id"@);
    assert(entries[1].0 == "name"@);
    assert("id"@ != "name"@);
    lemma_build_lookup(entries, 0);
    lemma_build_lookup(entries, 1);
}


pub open spec fn address_entries(v: AddressView) -> Seq<(Seq<char>, Option<DocView>)> {
    seq![
        (
            "street"@,
            match v.street {
                Some(s) => Some(DocView::Str(s)),
                None => None,
            },
        ),
        (
            "city"@,
            match v.city {
                Some(s) => Some(DocView::Str(s)),
                None => None,
            },
        ),
        (
            "state"@,
            match v.state {
                Some(s) => Some(DocView::Str(s)),
                None => None,
            },
        ),
        (
            "zip"@,
            match v.zip {
                Some(s) => Some(DocView::Str(s)),
                None => None,
            },
        ),
    ]
}

/// The structured document of a Address.
pub open spec fn address_doc(v: AddressView) -> DocView {
    DocView::Obj(build_fields(address_entries(v)))
}

pub open spec fn decode_structured_address_spec(d: DocView) -> Result<AddressView, DecodeError> {
    match d {
        DocView::Obj(fields) => match get_str(fields, "street"@) {
            Err(e) => Err(e),
            Ok(street) => match get_str(fields, "city"@) {
            Err(e) => Err(e),
            Ok(city) => match get_str(fields, "state"@) {
            Err(e) => Err(e),
            Ok(state) => match get_str(fields, "zip"@) {
            Err(e) => Err(e),
            Ok(zip) => Ok(AddressView { street, city, state, zip }),
        },
        },
        },
        },
        _ => Err(DecodeError::InvalidValue),
    }
}

impl Address {
    /// The structured document of this value.
    pub fn encode_structured(&self) -> (r: Document)
        ensures
            r@ == address_doc(self@),
    {
        let ghost entries = address_entries(self@);
        let mut fields: Vec<(String, Document)> = Vec::new();
        proof {
            assert(entries.take(0) =~= Seq::<(Seq<char>, Option<DocView>)>::empty());
            assert(obj_fields_view(fields@) =~= build_fields(entries.take(0)));
        }
        if let Some(s) = &self.street {
            push_field(&mut fields, "street", Document::Str(s.clone()));
        }
        proof {
            assert(entries.take(1) =~= entries.take(0).push(entries[0]));
            lemma_build_fields_snoc(entries.take(0), entries[0]);
            assert(obj_fields_view(fields@) =~= build_fields(entries.take(1)));
        }
        if let Some(s) = &self.city {
            push_field(&mut fields, "city", Document::Str(s.clone()));
        }
        proof {
            assert(entries.take(2) =~= entries.take(1).push(entries[1]));
            lemma_build_fields_snoc(entries.take(1), entries[1]);
            assert(obj_fields_view(fields@) =~= build_fields(entries.take(2)));
        }
        if let Some(s) = &self.state {
            push_field(&mut fields, "state", Document::Str(s.clone()));
        }
        proof {
            assert(entries.take(3) =~= entries.take(2).push(entries[2]));
            lemma_build_fields_snoc(entries.take(2), entries[2]);
            assert(obj_fields_view(fields@) =~= build_fields(entries.take(3)));
        }
        if let Some(s) = &self.zip {
            push_field(&mut fields, "zip", Document::Str(s.clone()));
        }
        proof {
            assert(entries.take(4) =~= entries.take(3).push(entries[3]));
            lemma_build_fields_snoc(entries.take(3), entries[3]);
            assert(obj_fields_view(fields@) =~= build_fields(entries.take(4)));
        }
        proof {
            assert(entries.take(4) =~= entries);
        }
        let r = Document::Obj(fields);
        proof {
            assert(r@ matches DocView::Obj(fv) && fv =~= obj_fields_view(fields@));
        }
        r
    }

    /// Reads a Address back from a structured document.
    pub fn decode_structured(d: &Document) -> (r: Result<Address, DecodeError>)
        ensures
            res_view(r) == decode_structured_address_spec(d@),
    {
        let fields: &Vec<(String, Document)> = match d {
            Document::Obj(f) => f,
            _ => {
                return Err(DecodeError::InvalidValue);
            },
        };
        let ghost fv = obj_fields_view(fields@);
        proof {
            assert(d@ matches DocView::Obj(g) && g =~= fv);
        }
        let street: Option<String> = match doc_obj_get(fields, "street") {
            None => None,
            Some(doc) => match doc {
                Document::Str(s) => Some(s.clone()),
                _ => {
                    return Err(DecodeError::InvalidValue);
                },
            },
        };
        let city: Option<String> = match doc_obj_get(fields, "city") {
            None => None,
            Some(doc) => match doc {
                Document::Str(s) => Some(s.clone()),
                _ => {
                    return Err(DecodeError::InvalidValue);
                },
            },
        };
        let state: Option<String> = match doc_obj_get(fields, "state") {
            None => None,
            Some(doc) => match doc {
                Document::Str(s) => Some(s.clone()),
                _ => {
                    return Err(DecodeError::InvalidValue);
                },
            },
        };
        let zip: Option<String> = match doc_obj_get(fields, "zip") {
            None => None,
            Some(doc) => match doc {
                Document::Str(s) => Some(s.clone()),
                _ => {
                    return Err(DecodeError::InvalidValue);
                },
            },
        };
        Ok(Address { street, city, state, zip })
    }
}

/// A Address decoded from its own structured document is itself.
pub proof fn lemma_structured_round_trip_address(v: AddressView)
    ensures
        decode_structured_address_spec(address_doc(v)) == Ok::<AddressView, DecodeError>(v),
{
    reveal_strlit("street");
    reveal_strlit("city");
    reveal_strlit("state");
    reveal_strlit("zip");
    let entries = address_entries(v);
    assert(entries[0].0 == "street"@);
    assert(entries[1].0 == "city"@);
    assert(entries[2].0 == "state"@);
    assert(entries[3].0 == "zip"@);

    lemma_build_lookup(entries, 0);
    lemma_build_lookup(entries, 1);
    lemma_build_lookup(entries, 2);
    lemma_build_lookup(entries, 3);
}

pub open spec fn api_response_entries(v: ApiResponseView) -> Seq<(Seq<char>, Option<DocView>)> {
    seq![
        (
            "code"@,
            match v.code {
                Some(n) => Some(DocView::Int(n as i64)),
                None => None,
            },
        ),
        (
            "type"@,
            match v.type_ {
                Some(s) => Some(DocView::Str(s)),
                None => None,
            },
        ),
        (
            "message"@,
            match v.message {
                Some(s) => Some(DocView::Str(s)),
                None => None,
            },
        ),
    ]
}

/// The structured document of a ApiResponse.
pub open spec fn api_response_doc(v: ApiResponseView) -> DocView {
    DocView::Obj(build_fields(api_response_entries(v)))
}

pub open spec fn decode_structured_api_response_spec(d: DocView) -> Result<ApiResponseView, DecodeError> {
    match d {
        DocView::Obj(fields) => match get_i32(fields, "code"@) {
            Err(e) => Err(e),
            Ok(code) => match get_str(fields, "type"@) {
            Err(e) => Err(e),
            Ok(type_) => match get_str(fields, "message"@) {
            Err(e) => Err(e),
            Ok(message) => Ok(ApiResponseView { code, type_, message }),
        },
        },
        },
        _ => Err(DecodeError::InvalidValue),
    }
}

impl ApiResponse {
    /// The structured document of this value.
    pub fn encode_structured(&self) -> (r: Document)
        ensures
            r@ == api_response_doc(self@),
    {
        let ghost entries = api_response_entries(self@);
        let mut fields: Vec<(String, Document)> = Vec::new();
        proof {
            assert(entries.take(0) =~= Seq::<(Seq<char>, Option<DocView>)>::empty());
            assert(obj_fields_view(fields@) =~= build_fields(entries.take(0)));
        }
        if let Some(n) = self.code {
            push_field(&mut fields, "code", Document::Int(n as i64));
        }
        proof {
            assert(entries.take(1) =~= entries.take(0).push(entries[0]));
            lemma_build_fields_snoc(entries.take(0), entries[0]);
            assert(obj_fields_view(fields@) =~= build_fields(entries.take(1)));
        }
        if let Some(s) = &self.type_ {
            push_field(&mut fields, "type", Document::Str(s.clone()));
        }
        proof {
            assert(entries.take(2) =~= entries.take(1).push(entries[1]));
            lemma_build_fields_snoc(entries.take(1), entries[1]);
            assert(obj_fields_view(fields@) =~= build_fields(entries.take(2)));
        }
        if let Some(s) = &self.message {
            push_field(&mut fields, "message", Document::Str(s.clone()));
        }
        proof {
            assert(entries.take(3) =~= entries.take(2).push(entries[2]));
            lemma_build_fields_snoc(entries.take(2), entries[2]);
            assert(obj_fields_view(fields@) =~= build_fields(entries.take(3)));
        }
        proof {
            assert(entries.take(3) =~= entries);
        }
        let r = Document::Obj(fields);
        proof {
            assert(r@ matches DocView::Obj(fv) && fv =~= obj_fields_view(fields@));
        }
        r
    }

    /// Reads a ApiResponse back from a structured document.
    pub fn decode_structured(d: &Document) -> (r: Result<ApiResponse, DecodeError>)
        ensures
            res_view(r) == decode_structured_api_response_spec(d@),
    {
        let fields: &Vec<(String, Document)> = match d {
            Document::Obj(f) => f,
            _ => {
                return Err(DecodeError::InvalidValue);
            },
        };
        let ghost fv = obj_fields_view(fields@);
        proof {
            assert(d@ matches DocView::Obj(g) && g =~= fv);
        }
        let code: Option<i32> = match doc_obj_get(fields, "code") {
            None => None,
            Some(doc) => match doc {
                Document::Int(n) => {
                    if i32::MIN as i64 <= *n && *n <= i32::MAX as i64 {
                        Some(*n as i32)
                    } else {
                        return Err(DecodeError::InvalidValue);
                    }
                },
                _ => {
                    return Err(DecodeError::InvalidValue);
                },
            },
        };
        let type_: Option<String> = match doc_obj_get(fields, "type") {
            None => None,
            Some(doc) => match doc {
                Document::Str(s) => Some(s.clone()),
                _ => {
                    return Err(DecodeError::InvalidValue);
                },
            },
        };
        let message: Option<String> = match doc_obj_get(fields, "message") {
            None => None,
            Some(doc) => match doc {
                Document::Str(s) => Some(s.clone()),
                _ => {
                    return Err(DecodeError::InvalidValue);
                },
            },
        };
        Ok(ApiResponse { code, type_, message })
    }
}

/// A ApiResponse decoded from its own structured document is itself.
pub proof fn lemma_structured_round_trip_api_response(v: ApiResponseView)
    ensures
        decode_structured_api_response_spec(api_response_doc(v)) == Ok::<ApiResponseView, DecodeError>(v),
{
    reveal_strlit("code");
    reveal_strlit("type");
    reveal_strlit("message");
    let entries = api_response_entries(v);
    assert(entries[0].0 == "code"@);
    assert(entries[1].0 == "type"@);
    assert(entries[2].0 == "message"@);
    assert("code"@[0] == 'c' && "type"@[0] == 't');
    assert("code"@ != "type"@);
    lemma_build_lookup(entries, 0);
    lemma_build_lookup(entries, 1);
    lemma_build_lookup(entries, 2);
}

pub open spec fn user_entries(v: UserView) -> Seq<(Seq<char>, Option<DocView>)> {
    seq![
        (
            "id"@,
            match v.id {
                Some(n) => Some(DocView::Int(n)),
                None => None,
            },
        ),
        (
            "username"@,
            match v.username {
                Some(s) => Some(DocView::Str(s)),
                None => None,
            },
        ),
        (
            "firstName"@,
            match v.first_name {
                Some(s) => Some(DocView::Str(s)),
                None => None,
            },
        ),
        (
            "lastName"@,
            match v.last_name {
                Some(s) => Some(DocView::Str(s)),
                None => None,
            },
        ),
        (
            "email"@,
            match v.email {
                Some(s) => Some(DocView::Str(s)),
                None => None,
            },
        ),
        (
            "password"@,
            match v.password {
                Some(s) => Some(DocView::Str(s)),
                None => None,
            },
        ),
        (
            "phone"@,
            match v.phone {
                Some(s) => Some(DocView::Str(s)),
                None => None,
            },
        ),
        (
            "userStatus"@,
            match v.user_status {
                Some(n) => Some(DocView::Int(n as i64)),
                None => None,
            },
        ),
    ]
}

/// The structured document of a User.
pub open spec fn user_doc(v: UserView) -> DocView {
    DocView::Obj(build_fields(user_entries(v)))
}

pub open spec fn decode_structured_user_spec(d: DocView) -> Result<UserView, DecodeError> {
    match d {
        DocView::Obj(fields) => match get_i64(fields, "id"@) {
            Err(e) => Err(e),
            Ok(id) => match get_str(fields, "username"@) {
            Err(e) => Err(e),
            Ok(username) => match get_str(fields, "firstName"@) {
            Err(e) => Err(e),
            Ok(first_name) => match get_str(fields, "lastName"@) {
            Err(e) => Err(e),
            Ok(last_name) => match get_str(fields, "email"@) {
            Err(e) => Err(e),
            Ok(email) => match get_str(fields, "password"@) {
            Err(e) => Err(e),
            Ok(password) => match get_str(fields, "phone"@) {
            Err(e) => Err(e),
            Ok(phone) => match get_i32(fields, "userStatus"@) {
            Err(e) => Err(e),
            Ok(user_status) => Ok(UserView { id, username, first_name, last_name, email, password, phone, user_status }),
        },
        },
        },
        },
        },
        },
        },
        },
        _ => Err(DecodeError::InvalidValue),
    }
}

impl User {
    /// The structured document of this value.
    #[verifier::spinoff_prover]
    #[verifier::rlimit(100)]
    pub fn encode_structured(&self) -> (r: Document)
        ensures
            r@ == user_doc(self@),
    {
        let ghost entries = user_entries(self@);
        let mut fields: Vec<(String, Document)> = Vec::new();
        proof {
            assert(entries.take(0) =~= Seq::<(Seq<char>, Option<DocView>)>::empty());
            assert(obj_fields_view(fields@) =~= build_fields(entries.take(0)));
        }
        if let Some(n) = self.id {
            push_field(&mut fields, "id", Document::Int(n));
        }
        proof {
            assert(entries.take(1) =~= entries.take(0).push(entries[0]));
            lemma_build_fields_snoc(entries.take(0), entries[0]);
            assert(obj_fields_view(fields@) =~= build_fields(entries.take(1)));
        }
        if let Some(s) = &self.username {
            push_field(&mut fields, "username", Document::Str(s.clone()));
        }
        proof {
            assert(entries.take(2) =~= entries.take(1).push(entries[1]));
            lemma_build_fields_snoc(entries.take(1), entries[1]);
            assert(obj_fields_view(fields@) =~= build_fields(entries.take(2)));
        }
        if let Some(s) = &self.first_name {
            push_field(&mut fields, "firstName", Document::Str(s.clone()));
        }
        proof {
            assert(entries.take(3) =~= entries.take(2).push(entries[2]));
            lemma_build_fields_snoc(entries.take(2), entries[2]);
            assert(obj_fields_view(fields@) =~= build_fields(entries.take(3)));
        }
        if let Some(s) = &self.last_name {
            push_field(&mut fields, "lastName", Document::Str(s.clone()));
        }
        proof {
            assert(entries.take(4) =~= entries.take(3).push(entries[3]));
            lemma_build_fields_snoc(entries.take(3), entries[3]);
            assert(obj_fields_view(fields@) =~= build_fields(entries.take(4)));
        }
        if let Some(s) = &self.email {
            push_field(&mut fields, "email", Document::Str(s.clone()));
        }
        proof {
            assert(entries.take(5) =~= entries.take(4).push(entries[4]));
            lemma_build_fields_snoc(entries.take(4), entries[4]);
            assert(obj_fields_view(fields@) =~= build_fields(entries.take(5)));
        }
        if let Some(s) = &self.password {
            push_field(&mut fields, "password", Document::Str(s.clone()));
        }
        proof {
            assert(entries.take(6) =~= entries.take(5).push(entries[5]));
            lemma_build_fields_snoc(entries.take(5), entries[5]);
            assert(obj_fields_view(fields@) =~= build_fields(entries.take(6)));
        }
        if let Some(s) = &self.phone {
            push_field(&mut fields, "phone", Document::Str(s.clone()));
        }
        proof {
            assert(entries.take(7) =~= entries.take(6).push(entries[6]));
            lemma_build_fields_snoc(entries.take(6), entries[6]);
            assert(obj_fields_view(fields@) =~= build_fields(entries.take(7)));
        }
        if let Some(n) = self.user_status {
            push_field(&mut fields, "userStatus", Document::Int(n as i64));
        }
        proof {
            assert(entries.take(8) =~= entries.take(7).push(entries[7]));
            lemma_build_fields_snoc(entries.take(7), entries[7]);
            assert(obj_fields_view(fields@) =~= build_fields(entries.take(8)));
        }
        proof {
            assert(entries.take(8) =~= entries);
        }
        let r = Document::Obj(fields);
        proof {
            assert(r@ matches DocView::Obj(fv) && fv =~= obj_fields_view(fields@));
        }
        r
    }

    /// Reads a User back from a structured document.
    pub fn decode_structured(d: &Document) -> (r: Result<User, DecodeError>)
        ensures
            res_view(r) == decode_structured_user_spec(d@),
    {
        let fields: &Vec<(String, Document)> = match d {
            Document::Obj(f) => f,
            _ => {
                return Err(DecodeError::InvalidValue);
            },
        };
        let ghost fv = obj_fields_view(fields@);
        proof {
            assert(d@ matches DocView::Obj(g) && g =~= fv);
        }
        let id: Option<i64> = match doc_obj_get(fields, "id") {
            None => None,
            Some(doc) => match doc {
                Document::Int(n) => Some(*n),
                _ => {
                    return Err(DecodeError::InvalidValue);
                },
            },
        };
        let username: Option<String> = match doc_obj_get(fields, "username") {
            None => None,
            Some(doc) => match doc {
                Document::Str(s) => Some(s.clone()),
                _ => {
                    return Err(DecodeError::InvalidValue);
                },
            },
        };
        let first_name: Option<String> = match doc_obj_get(fields, "firstName") {
            None => None,
            Some(doc) => match doc {
                Document::Str(s) => Some(s.clone()),
                _ => {
                    return Err(DecodeError::InvalidValue);
                },
            },
        };
        let last_name: Option<String> = match doc_obj_get(fields, "lastName") {
            None => None,
            Some(doc) => match doc {
                Document::Str(s) => Some(s.clone()),
                _ => {
                    return Err(DecodeError::InvalidValue);
                },
            },
        };
        let email: Option<String> = match doc_obj_get(fields, "email") {
            None => None,
            Some(doc) => match doc {
                Document::Str(s) => Some(s.clone()),
                _ => {
                    return Err(DecodeError::InvalidValue);
                },
            },
        };
        let password: Option<String> = match doc_obj_get(fields, "password") {
            None => None,
            Some(doc) => match doc {
                Document::Str(s) => Some(s.clone()),
                _ => {
                    return Err(DecodeError::InvalidValue);
                },
            },
        };
        let phone: Option<String> = match doc_obj_get(fields, "phone") {
            None => None,
            Some(doc) => match doc {
                Document::Str(s) => Some(s.clone()),
                _ => {
                    return Err(DecodeError::InvalidValue);
                },
            },
        };
        let user_status: Option<i32> = match doc_obj_get(fields, "userStatus") {
            None => None,
            Some(doc) => match doc {
                Document::Int(n) => {
                    if i32::MIN as i64 <= *n && *n <= i32::MAX as i64 {
                        Some(*n as i32)
                    } else {
                        return Err(DecodeError::InvalidValue);
                    }
                },
                _ => {
                    return Err(DecodeError::InvalidValue);
                },
            },
        };
        Ok(User { id, username, first_name, last_name, email, password, phone, user_status })
    }
}

/// A User decoded from its own structured document is itself.
pub proof fn lemma_structured_round_trip_user(v: UserView)
    ensures
        decode_structured_user_spec(user_doc(v)) == Ok::<UserView, DecodeError>(v),
{
    reveal_strlit("id");
    reveal_strlit("username");
    reveal_strlit("firstName");
    reveal_strlit("lastName");
    reveal_strlit("email");
    reveal_strlit("password");
    reveal_strlit("phone");
    reveal_strlit("userStatus");
    let entries = user_entries(v);
    assert(entries[0].0 == "id"@);
    assert(entries[1].0 == "username"@);
    assert(entries[2].0 == "firstName"@);
    assert(entries[3].0 == "lastName"@);
    assert(entries[4].0 == "email"@);
    assert(entries[5].0 == "password"@);
    assert(entries[6].0 == "phone"@);
    assert(entries[7].0 == "userStatus"@);
    assert("username"@[0] == 'u' && "lastName"@[0] == 'l' && "password"@[0] == 'p' && "email"@[0]
        == 'e' && "phone"@[0] == 'p');
    assert("username"@ != "lastName"@);
    assert("username"@ != "password"@);
    assert("lastName"@ != "password"@);
    assert("email"@ != "phone"@);
    lemma_build_lookup(entries, 0);
    lemma_build_lookup(entries, 1);
    lemma_build_lookup(entries, 2);
    lemma_build_lookup(entries, 3);
    lemma_build_lookup(entries, 4);
    lemma_build_lookup(entries, 5);
    lemma_build_lookup(entries, 6);
    lemma_build_lookup(entries, 7);
}


/// Documents of a list of texts.
pub open spec fn str_list_doc(items: Seq<Seq<char>>) -> Seq<DocView> {
    items.map_values(|s: Seq<char>| DocView::Str(s))
}

/// Documents of a list of addresses.
pub open spec fn address_list_doc(items: Seq<AddressView>) -> Seq<DocView> {
    items.map_values(|a: AddressView| address_doc(a))
}

/// Documents of a list of tags.
pub open spec fn tag_list_doc(items: Seq<TagView>) -> Seq<DocView> {
    items.map_values(|t: TagView| tag_doc(t))
}

/// The shapes of a list of documents.
pub open spec fn docs_view(items: Seq<Document>) -> Seq<DocView> {
    items.map_values(|d: Document| d.dview())
}

/// Reads a list of text nodes, left to right.
pub open spec fn decode_str_list(items: Seq<DocView>, acc: Seq<Seq<char>>) -> Result<
    Seq<Seq<char>>,
    DecodeError,
>
    decreases items.len(),
{
    if items.len() == 0 {
        Ok(acc)
    } else {
        match items[0] {
            DocView::Str(s) => decode_str_list(items.drop_first(), acc.push(s)),
            _ => Err(DecodeError::InvalidValue),
        }
    }
}

/// Reads a list of address objects, left to right.
pub open spec fn decode_address_list(items: Seq<DocView>, acc: Seq<AddressView>) -> Result<
    Seq<AddressView>,
    DecodeError,
>
    decreases items.len(),
{
    if items.len() == 0 {
        Ok(acc)
    } else {
        match decode_structured_address_spec(items[0]) {
            Ok(a) => decode_address_list(items.drop_first(), acc.push(a)),
            Err(e) => Err(e),
        }
    }
}

/// Reads a list of tag objects, left to right.
pub open spec fn decode_tag_list(items: Seq<DocView>, acc: Seq<TagView>) -> Result<
    Seq<TagView>,
    DecodeError,
>
    decreases items.len(),
{
    if items.len() == 0 {
        Ok(acc)
    } else {
        match decode_structured_tag_spec(items[0]) {
            Ok(t) => decode_tag_list(items.drop_first(), acc.push(t)),
            Err(e) => Err(e),
        }
    }
}

pub proof fn lemma_str_list_round_trip(items: Seq<Seq<char>>, acc: Seq<Seq<char>>)
    ensures
        decode_str_list(str_list_doc(items), acc) == Ok::<Seq<Seq<char>>, DecodeError>(acc + items),
    decreases items.len(),
{
    let docs = str_list_doc(items);
    if items.len() == 0 {
        assert(acc + items =~= acc);
    } else {
        assert(docs[0] == DocView::Str(items[0]));
        assert(docs.drop_first() =~= str_list_doc(items.drop_first()));
        lemma_str_list_round_trip(items.drop_first(), acc.push(items[0]));
        assert(acc.push(items[0]) + items.drop_first() =~= acc + items);
    }
}

pub proof fn lemma_address_list_round_trip(items: Seq<AddressView>, acc: Seq<AddressView>)
    ensures
        decode_address_list(address_list_doc(items), acc) == Ok::<Seq<AddressView>, DecodeError>(
            acc + items,
        ),
    decreases items.len(),
{
    let docs = address_list_doc(items);
    if items.len() == 0 {
        assert(acc + items =~= acc);
    } else {
        assert(docs[0] == address_doc(items[0]));
        lemma_structured_round_trip_address(items[0]);
        assert(docs.drop_first() =~= address_list_doc(items.drop_first()));
        lemma_address_list_round_trip(items.drop_first(), acc.push(items[0]));
        assert(acc.push(items[0]) + items.drop_first() =~= acc + items);
    }
}

pub proof fn lemma_tag_list_round_trip(items: Seq<TagView>, acc: Seq<TagView>)
    ensures
        decode_tag_list(tag_list_doc(items), acc) == Ok::<Seq<TagView>, DecodeError>(acc + items),
    decreases items.len(),
{
    let docs = tag_list_doc(items);
    if items.len() == 0 {
        assert(acc + items =~= acc);
    } else {
        assert(docs[0] == tag_doc(items[0]));
        lemma_structured_round_trip_tag(items[0]);
        assert(docs.drop_first() =~= tag_list_doc(items.drop_first()));
        lemma_tag_list_round_trip(items.drop_first(), acc.push(items[0]));
        assert(acc.push(items[0]) + items.drop_first() =~= acc + items);
    }
}

fn encode_str_list(items: &Vec<String>) -> (r: Vec<Document>)
    ensures
        docs_view(r@) == str_list_doc(strings_view(items@)),
{
    let mut out: Vec<Document> = Vec::new();
    let mut i: usize = 0;
    while i < items.len()
        invariant
            i <= items.len(),
            out@.len() == i,
            forall|j: int| 0 <= j < i ==> (#[trigger] out@[j].dview()) == DocView::Str(
                items@[j]@,
            ),
        decreases items.len() - i,
    {
        out.push(Document::Str(items[i].clone()));
        i += 1;
    }
    proof {
        assert(docs_view(out@) =~= str_list_doc(strings_view(items@)));
    }
    out
}

fn encode_address_list(items: &Vec<Address>) -> (r: Vec<Document>)
    ensures
        docs_view(r@) == address_list_doc(items@.map_values(|a: Address| a@)),
{
    let mut out: Vec<Document> = Vec::new();
    let mut i: usize = 0;
    while i < items.len()
        invariant
            i <= items.len(),
            out@.len() == i,
            forall|j: int| 0 <= j < i ==> (#[trigger] out@[j].dview()) == address_doc(items@[j]@),
        decreases items.len() - i,
    {
        out.push(items[i].encode_structured());
        i += 1;
    }
    proof {
        assert(docs_view(out@) =~= address_list_doc(items@.map_values(|a: Address| a@)));
    }
    out
}

fn encode_tag_list(items: &Vec<Tag>) -> (r: Vec<Document>)
    ensures
        docs_view(r@) == tag_list_doc(items@.map_values(|t: Tag| t@)),
{
    let mut out: Vec<Document> = Vec::new();
    let mut i: usize = 0;
    while i < items.len()
        invariant
            i <= items.len(),
            out@.len() == i,
            forall|j: int| 0 <= j < i ==> (#[trigger] out@[j].dview()) == tag_doc(items@[j]@),
        decreases items.len() - i,
    {
        out.push(items[i].encode_structured());
        i += 1;
    }
    proof {
        assert(docs_view(out@) =~= tag_list_doc(items@.map_values(|t: Tag| t@)));
    }
    out
}

fn decode_str_list_exec(items: &Vec<Document>) -> (r: Result<Vec<String>, DecodeError>)
    ensures
        match r {
            Ok(v) => decode_str_list(docs_view(items@), Seq::empty()) == Ok::<
                Seq<Seq<char>>,
                DecodeError,
            >(strings_view(v@)),
            Err(e) => decode_str_list(docs_view(items@), Seq::empty()) == Err::<
                Seq<Seq<char>>,
                DecodeError,
            >(e),
        },
{
    let ghost dv = docs_view(items@);
    let mut out: Vec<String> = Vec::new();
    let mut i: usize = 0;
    proof {
        assert(dv.skip(0) =~= dv);
        assert(strings_view(out@) =~= Seq::<Seq<char>>::empty());
    }
    while i < items.len()
        invariant
            i <= items.len(),
            dv == docs_view(items@),
            decode_str_list(dv.skip(i as int), strings_view(out@)) == decode_str_list(
                dv,
                Seq::empty(),
            ),
        decreases items.len() - i,
    {
        let ghost pre = strings_view(out@);
        proof {
            assert(dv.skip(i as int)[0] == dv[i as int]);
            assert(dv[i as int] == items@[i as int].dview());
            assert(dv.skip(i as int).drop_first() =~= dv.skip(i as int + 1));
        }
        match &items[i] {
            Document::Str(s) => {
                out.push(s.clone());
                proof {
                    assert(strings_view(out@) =~= pre.push(s@));
                }
            },
            _ => {
                return Err(DecodeError::InvalidValue);
            },
        }
        i += 1;
    }
    proof {
        assert(dv.skip(i as int) =~= Seq::<DocView>::empty());
    }
    Ok(out)
}

fn decode_address_list_exec(items: &Vec<Document>) -> (r: Result<Vec<Address>, DecodeError>)
    ensures
        match r {
            Ok(v) => decode_address_list(docs_view(items@), Seq::empty()) == Ok::<
                Seq<AddressView>,
                DecodeError,
            >(v@.map_values(|a: Address| a@)),
            Err(e) => decode_address_list(docs_view(items@), Seq::empty()) == Err::<
                Seq<AddressView>,
                DecodeError,
            >(e),
        },
{
    let ghost dv = docs_view(items@);
    let mut out: Vec<Address> = Vec::new();
    let mut i: usize = 0;
    proof {
        assert(dv.skip(0) =~= dv);
        assert(out@.map_values(|a: Address| a@) =~= Seq::<AddressView>::empty());
    }
    while i < items.len()
        invariant
            i <= items.len(),
            dv == docs_view(items@),
            decode_address_list(dv.skip(i as int), out@.map_values(|a: Address| a@))
                == decode_address_list(dv, Seq::empty()),
        decreases items.len() - i,
    {
        let ghost pre = out@.map_values(|a: Address| a@);
        proof {
            assert(dv.skip(i as int)[0] == dv[i as int]);
            assert(dv[i as int] == items@[i as int].dview());
            assert(dv.skip(i as int).drop_first() =~= dv.skip(i as int + 1));
        }
        match Address::decode_structured(&items[i]) {
            Ok(a) => {
                let ghost av = a@;
                out.push(a);
                proof {
                    assert(out@.map_values(|a: Address| a@) =~= pre.push(av));
                }
            },
            Err(e) => {
                return Err(e);
            },
        }
        i += 1;
    }
    proof {
        assert(dv.skip(i as int) =~= Seq::<DocView>::empty());
    }
    Ok(out)
}

fn decode_tag_list_exec(items: &Vec<Document>) -> (r: Result<Vec<Tag>, DecodeError>)
    ensures
        match r {
            Ok(v) => decode_tag_list(docs_view(items@), Seq::empty()) == Ok::<
                Seq<TagView>,
                DecodeError,
            >(v@.map_values(|t: Tag| t@)),
            Err(e) => decode_tag_list(docs_view(items@), Seq::empty()) == Err::<
                Seq<TagView>,
                DecodeError,
            >(e),
        },
{
    let ghost dv = docs_view(items@);
    let mut out: Vec<Tag> = Vec::new();
    let mut i: usize = 0;
    proof {
        assert(dv.skip(0) =~= dv);
        assert(out@.map_values(|t: Tag| t@) =~= Seq::<TagView>::empty());
    }
    while i < items.len()
        invariant
            i <= items.len(),
            dv == docs_view(items@),
            decode_tag_list(dv.skip(i as int), out@.map_values(|t: Tag| t@)) == decode_tag_list(
                dv,
                Seq::empty(),
            ),
        decreases items.len() - i,
    {
        let ghost pre = out@.map_values(|t: Tag| t@);
        proof {
            assert(dv.skip(i as int)[0] == dv[i as int]);
            assert(dv[i as int] == items@[i as int].dview());
            assert(dv.skip(i as int).drop_first() =~= dv.skip(i as int + 1));
        }
        match Tag::decode_structured(&items[i]) {
            Ok(t) => {
                let ghost tv = t@;
                out.push(t);
                proof {
                    assert(out@.map_values(|t: Tag| t@) =~= pre.push(tv));
                }
            },
            Err(e) => {
                return Err(e);
            },
        }
        i += 1;
    }
    proof {
        assert(dv.skip(i as int) =~= Seq::<DocView>::empty());
    }
    Ok(out)
}


/// An optional category field: a nested category object.
pub open spec fn get_category(fields: Seq<(Seq<char>, DocView)>, k: Seq<char>) -> Result<
    Option<CategoryView>,
    DecodeError,
> {
    match obj_lookup(fields, k) {
        None => Ok(None),
        Some(d) => match decode_structured_category_spec(d) {
            Ok(c) => Ok(Some(c)),
            Err(e) => Err(e),
        },
    }
}

/// An optional list-of-addresses field.
pub open spec fn get_address_list(fields: Seq<(Seq<char>, DocView)>, k: Seq<char>) -> Result<
    Option<Seq<AddressView>>,
    DecodeError,
> {
    match obj_lookup(fields, k) {
        None => Ok(None),
        Some(DocView::Arr(items)) => match decode_address_list(items, Seq::empty()) {
            Ok(l) => Ok(Some(l)),
            Err(e) => Err(e),
        },
        Some(_) => Err(DecodeError::InvalidValue),
    }
}

/// An optional list-of-tags field.
pub open spec fn get_tag_list(fields: Seq<(Seq<char>, DocView)>, k: Seq<char>) -> Result<
    Option<Seq<TagView>>,
    DecodeError,
> {
    match obj_lookup(fields, k) {
        None => Ok(None),
        Some(DocView::Arr(items)) => match decode_tag_list(items, Seq::empty()) {
            Ok(l) => Ok(Some(l)),
            Err(e) => Err(e),
        },
        Some(_) => Err(DecodeError::InvalidValue),
    }
}

/// A required text field: absence is `MissingRequiredField`.
pub open spec fn get_req_str(fields: Seq<(Seq<char>, DocView)>, k: Seq<char>) -> Result<
    Seq<char>,
    DecodeError,
> {
    match obj_lookup(fields, k) {
        None => Err(DecodeError::MissingRequiredField),
        Some(DocView::Str(s)) => Ok(s),
        Some(_) => Err(DecodeError::InvalidValue),
    }
}

/// A required list-of-texts field: absence is `MissingRequiredField`.
pub open spec fn get_req_str_list(fields: Seq<(Seq<char>, DocView)>, k: Seq<char>) -> Result<
    Seq<Seq<char>>,
    DecodeError,
> {
    match obj_lookup(fields, k) {
        None => Err(DecodeError::MissingRequiredField),
        Some(DocView::Arr(items)) => decode_str_list(items, Seq::empty()),
        Some(_) => Err(DecodeError::InvalidValue),
    }
}

pub open spec fn customer_entries(v: CustomerView) -> Seq<(Seq<char>, Option<DocView>)> {
    seq![
        (
            "id"@,
            match v.id {
                Some(n) => Some(DocView::Int(n)),
                None => None,
            },
        ),
        (
            "username"@,
            match v.username {
                Some(s) => Some(DocView::Str(s)),
                None => None,
            },
        ),
        (
            "address"@,
            match v.address {
                Some(l) => Some(DocView::Arr(address_list_doc(l))),
                None => None,
            },
        ),
    ]
}

/// The structured document of a Customer.
pub open spec fn customer_doc(v: CustomerView) -> DocView {
    DocView::Obj(build_fields(customer_entries(v)))
}

pub open spec fn decode_structured_customer_spec(d: DocView) -> Result<CustomerView, DecodeError> {
    match d {
        DocView::Obj(fields) => match get_i64(fields, "id"@) {
            Err(e) => Err(e),
            Ok(id) => match get_str(fields, "username"@) {
                Err(e) => Err(e),
                Ok(username) => match get_address_list(fields, "address"@) {
                    Err(e) => Err(e),
                    Ok(address) => Ok(CustomerView { id, username, address }),
                },
            },
        },
        _ => Err(DecodeError::InvalidValue),
    }
}

impl Customer {
    /// The structured document of this value.
    pub fn encode_structured(&self) -> (r: Document)
        ensures
            r@ == customer_doc(self@),
    {
        let ghost entries = customer_entries(self@);
        let mut fields: Vec<(String, Document)> = Vec::new();
        proof {
            assert(entries.take(0) =~= Seq::<(Seq<char>, Option<DocView>)>::empty());
            assert(obj_fields_view(fields@) =~= build_fields(entries.take(0)));
        }
        if let Some(n) = self.id {
            push_field(&mut fields, "id", Document::Int(n));
        }
        proof {
            assert(entries.take(1) =~= entries.take(0).push(entries[0]));
            lemma_build_fields_snoc(entries.take(0), entries[0]);
            assert(obj_fields_view(fields@) =~= build_fields(entries.take(1)));
        }
        if let Some(s) = &self.username {
            push_field(&mut fields, "username", Document::Str(s.clone()));
        }
        proof {
            assert(entries.take(2) =~= entries.take(1).push(entries[1]));
            lemma_build_fields_snoc(entries.take(1), entries[1]);
            assert(obj_fields_view(fields@) =~= build_fields(entries.take(2)));
        }
        if let Some(l) = &self.address {
            let doc = Document::Arr(encode_address_list(l));
            proof {
                assert(doc@ matches DocView::Arr(els) && els =~= address_list_doc(
                    l@.map_values(|a: Address| a@),
                ));
                assert(doc@ == DocView::Arr(address_list_doc(l@.map_values(|a: Address| a@))));
            }
            push_field(&mut fields, "address", doc);
        }
        proof {
            assert(entries.take(3) =~= entries.take(2).push(entries[2]));
            lemma_build_fields_snoc(entries.take(2), entries[2]);
            assert(obj_fields_view(fields@) =~= build_fields(entries.take(3)));
            assert(entries.take(3) =~= entries);
        }
        let r = Document::Obj(fields);
        proof {
            assert(r@ matches DocView::Obj(fv) && fv =~= obj_fields_view(fields@));
        }
        r
    }

    /// Reads a Customer back from a structured document.
    pub fn decode_structured(d: &Document) -> (r: Result<Customer, DecodeError>)
        ensures
            res_view(r) == decode_structured_customer_spec(d@),
    {
        let fields: &Vec<(String, Document)> = match d {
            Document::Obj(f) => f,
            _ => {
                return Err(DecodeError::InvalidValue);
            },
        };
        let ghost fv = obj_fields_view(fields@);
        proof {
            assert(d@ matches DocView::Obj(g) && g =~= fv);
        }
        let id: Option<i64> = match doc_obj_get(fields, "id") {
            None => None,
            Some(doc) => match doc {
                Document::Int(n) => Some(*n),
                _ => {
                    return Err(DecodeError::InvalidValue);
                },
            },
        };
        let username: Option<String> = match doc_obj_get(fields, "username") {
            None => None,
            Some(doc) => match doc {
                Document::Str(s) => Some(s.clone()),
                _ => {
                    return Err(DecodeError::InvalidValue);
                },
            },
        };
        let address: Option<Vec<Address>> = match doc_obj_get(fields, "address") {
            None => None,
            Some(doc) => match doc {
                Document::Arr(items) => match ({
                    proof {
                        assert(doc.dview() matches DocView::Arr(els) && els =~= docs_view(items@));
                    }
                    decode_address_list_exec(items)
                }) {
                    Ok(l) => Some(l),
                    Err(e) => {
                        return Err(e);
                    },
                },
                _ => {
                    return Err(DecodeError::InvalidValue);
                },
            },
        };
        Ok(Customer { id, username, address })
    }
}

/// A Customer decoded from its own structured document is itself.
pub proof fn lemma_structured_round_trip_customer(v: CustomerView)
    ensures
        decode_structured_customer_spec(customer_doc(v)) == Ok::<CustomerView, DecodeError>(v),
{
    reveal_strlit("id");
    reveal_strlit("username");
    reveal_strlit("address");
    let entries = customer_entries(v);
    assert(entries[0].0 == "id"@);
    assert(entries[1].0 == "username"@);
    assert(entries[2].0 == "address"@);
    lemma_build_lookup(entries, 0);
    lemma_build_lookup(entries, 1);
    lemma_build_lookup(entries, 2);
    if let Some(l) = v.address {
        lemma_address_list_round_trip(l, Seq::empty());
        assert(Seq::<AddressView>::empty() + l =~= l);
    }
}

pub open spec fn order_entries(v: OrderView) -> Seq<(Seq<char>, Option<DocView>)> {
    seq![
        (
            "id"@,
            match v.id {
                Some(n) => Some(DocView::Int(n)),
                None => None,
            },
        ),
        (
            "petId"@,
            match v.pet_id {
                Some(n) => Some(DocView::Int(n)),
                None => None,
            },
        ),
        (
            "quantity"@,
            match v.quantity {
                Some(n) => Some(DocView::Int(n as i64)),
                None => None,
            },
        ),
        (
            "shipDate"@,
            match v.ship_date {
                Some(s) => Some(DocView::Str(s)),
                None => None,
            },
        ),
        (
            "status"@,
            match v.status {
                Some(s) => Some(DocView::Str(s)),
                None => None,
            },
        ),
        (
            "complete"@,
            match v.complete {
                Some(b) => Some(DocView::Bool(b)),
                None => None,
            },
        ),
    ]
}

/// The structured document of an Order.
pub open spec fn order_doc(v: OrderView) -> DocView {
    DocView::Obj(build_fields(order_entries(v)))
}

pub open spec fn decode_structured_order_spec(d: DocView) -> Result<OrderView, DecodeError> {
    match d {
        DocView::Obj(fields) => match get_i64(fields, "id"@) {
            Err(e) => Err(e),
            Ok(id) => match get_i64(fields, "petId"@) {
                Err(e) => Err(e),
                Ok(pet_id) => match get_i32(fields, "quantity"@) {
                    Err(e) => Err(e),
                    Ok(quantity) => match get_datetime(fields, "shipDate"@) {
                        Err(e) => Err(e),
                        Ok(ship_date) => match get_str(fields, "status"@) {
                            Err(e) => Err(e),
                            Ok(status) => match get_bool(fields, "complete"@) {
                                Err(e) => Err(e),
                                Ok(complete) => Ok(
                                    OrderView {
                                        id,
                                        pet_id,
                                        quantity,
                                        ship_date,
                                        status,
                                        complete,
                                    },
                                ),
                            },
                        },
                    },
                },
            },
        },
        _ => Err(DecodeError::InvalidValue),
    }
}

impl Order {
    /// The structured document of this value.
    #[verifier::spinoff_prover]
    #[verifier::rlimit(100)]
    pub fn encode_structured(&self) -> (r: Document)
        ensures
            r@ == order_doc(self@),
    {
        let ghost entries = order_entries(self@);
        let mut fields: Vec<(String, Document)> = Vec::new();
        proof {
            assert(entries.take(0) =~= Seq::<(Seq<char>, Option<DocView>)>::empty());
            assert(obj_fields_view(fields@) =~= build_fields(entries.take(0)));
        }
        if let Some(n) = self.id {
            push_field(&mut fields, "id", Document::Int(n));
        }
        proof {
            assert(entries.take(1) =~= entries.take(0).push(entries[0]));
            lemma_build_fields_snoc(entries.take(0), entries[0]);
            assert(obj_fields_view(fields@) =~= build_fields(entries.take(1)));
        }
        if let Some(n) = self.pet_id {
            push_field(&mut fields, "petId", Document::Int(n));
        }
        proof {
            assert(entries.take(2) =~= entries.take(1).push(entries[1]));
            lemma_build_fields_snoc(entries.take(1), entries[1]);
            assert(obj_fields_view(fields@) =~= build_fields(entries.take(2)));
        }
        if let Some(n) = self.quantity {
            push_field(&mut fields, "quantity", Document::Int(n as i64));
        }
        proof {
            assert(entries.take(3) =~= entries.take(2).push(entries[2]));
            lemma_build_fields_snoc(entries.take(2), entries[2]);
            assert(obj_fields_view(fields@) =~= build_fields(entries.take(3)));
        }
        if let Some(dt) = &self.ship_date {
            push_field(&mut fields, "shipDate", Document::Str(String::from_str(dt.as_str())));
        }
        proof {
            assert(entries.take(4) =~= entries.take(3).push(entries[3]));
            lemma_build_fields_snoc(entries.take(3), entries[3]);
            assert(obj_fields_view(fields@) =~= build_fields(entries.take(4)));
        }
        if let Some(s) = &self.status {
            push_field(&mut fields, "status", Document::Str(s.clone()));
        }
        proof {
            assert(entries.take(5) =~= entries.take(4).push(entries[4]));
            lemma_build_fields_snoc(entries.take(4), entries[4]);
            assert(obj_fields_view(fields@) =~= build_fields(entries.take(5)));
        }
        if let Some(b) = self.complete {
            push_field(&mut fields, "complete", Document::Bool(b));
        }
        proof {
            assert(entries.take(6) =~= entries.take(5).push(entries[5]));
            lemma_build_fields_snoc(entries.take(5), entries[5]);
            assert(obj_fields_view(fields@) =~= build_fields(entries.take(6)));
            assert(entries.take(6) =~= entries);
        }
        let r = Document::Obj(fields);
        proof {
            assert(r@ matches DocView::Obj(fv) && fv =~= obj_fields_view(fields@));
        }
        r
    }

    /// Reads an Order back from a structured document.
    pub fn decode_structured(d: &Document) -> (r: Result<Order, DecodeError>)
        ensures
            res_view(r) == decode_structured_order_spec(d@),
    {
        let fields: &Vec<(String, Document)> = match d {
            Document::Obj(f) => f,
            _ => {
                return Err(DecodeError::InvalidValue);
            },
        };
        let ghost fv = obj_fields_view(fields@);
        proof {
            assert(d@ matches DocView::Obj(g) && g =~= fv);
        }
        let id: Option<i64> = match doc_obj_get(fields, "id") {
            None => None,
            Some(doc) => match doc {
                Document::Int(n) => Some(*n),
                _ => {
                    return Err(DecodeError::InvalidValue);
                },
            },
        };
        let pet_id: Option<i64> = match doc_obj_get(fields, "petId") {
            None => None,
            Some(doc) => match doc {
                Document::Int(n) => Some(*n),
                _ => {
                    return Err(DecodeError::InvalidValue);
                },
            },
        };
        let quantity: Option<i32> = match doc_obj_get(fields, "quantity") {
            None => None,
            Some(doc) => match doc {
                Document::Int(n) => {
                    if i32::MIN as i64 <= *n && *n <= i32::MAX as i64 {
                        Some(*n as i32)
                    } else {
                        return Err(DecodeError::InvalidValue);
                    }
                },
                _ => {
                    return Err(DecodeError::InvalidValue);
                },
            },
        };
        let ship_date: Option<UtcDateTime> = match doc_obj_get(fields, "shipDate") {
            None => None,
            Some(doc) => match doc {
                Document::Str(s) => match UtcDateTime::parse(s.as_str()) {
                    Some(dt) => Some(dt),
                    None => {
                        return Err(DecodeError::InvalidValue);
                    },
                },
                _ => {
                    return Err(DecodeError::InvalidValue);
                },
            },
        };
        let status: Option<String> = match doc_obj_get(fields, "status") {
            None => None,
            Some(doc) => match doc {
                Document::Str(s) => Some(s.clone()),
                _ => {
                    return Err(DecodeError::InvalidValue);
                },
            },
        };
        let complete: Option<bool> = match doc_obj_get(fields, "complete") {
            None => None,
            Some(doc) => match doc {
                Document::Bool(b) => Some(*b),
                _ => {
                    return Err(DecodeError::InvalidValue);
                },
            },
        };
        Ok(Order { id, pet_id, quantity, ship_date, status, complete })
    }
}

/// An Order whose ship date the date-time parser accepts is itself after a
/// round trip through its structured document.
pub proof fn lemma_structured_round_trip_order(v: OrderView)
    requires
        v.ship_date matches Some(s) ==> datetime_ok(s),
    ensures
        decode_structured_order_spec(order_doc(v)) == Ok::<OrderView, DecodeError>(v),
{
    reveal_strlit("id");
    reveal_strlit("petId");
    reveal_strlit("quantity");
    reveal_strlit("shipDate");
    reveal_strlit("status");
    reveal_strlit("complete");
    assert("shipDate"@[0] == 's' && "quantity"@[0] == 'q' && "complete"@[0] == 'c');
    assert("shipDate"@ != "quantity"@);
    assert("complete"@ != "quantity"@);
    assert("complete"@ != "shipDate"@);
    let entries = order_entries(v);
    assert(entries[0].0 == "id"@);
    assert(entries[1].0 == "petId"@);
    assert(entries[2].0 == "quantity"@);
    assert(entries[3].0 == "shipDate"@);
    assert(entries[4].0 == "status"@);
    assert(entries[5].0 == "complete"@);
    lemma_build_lookup(entries, 0);
    lemma_build_lookup(entries, 1);
    lemma_build_lookup(entries, 2);
    lemma_build_lookup(entries, 3);
    lemma_build_lookup(entries, 4);
    lemma_build_lookup(entries, 5);
}

pub open spec fn pet_entries(v: PetView) -> Seq<(Seq<char>, Option<DocView>)> {
    seq![
        (
            "id"@,
            match v.id {
                Some(n) => Some(DocView::Int(n)),
                None => None,
            },
        ),
        ("name"@, Some(DocView::Str(v.name))),
        (
            "category"@,
            match v.category {
                Some(c) => Some(category_doc(c)),
                None => None,
            },
        ),
        ("photoUrls"@, Some(DocView::Arr(str_list_doc(v.photo_urls)))),
        (
            "tags"@,
            match v.tags {
                Some(l) => Some(DocView::Arr(tag_list_doc(l))),
                None => None,
            },
        ),
        (
            "status"@,
            match v.status {
                Some(s) => Some(DocView::Str(s)),
                None => None,
            },
        ),
    ]
}

/// The structured document of a Pet.
pub open spec fn pet_doc(v: PetView) -> DocView {
    DocView::Obj(build_fields(pet_entries(v)))
}

pub open spec fn decode_structured_pet_spec(d: DocView) -> Result<PetView, DecodeError> {
    match d {
        DocView::Obj(fields) => match get_i64(fields, "id"@) {
            Err(e) => Err(e),
            Ok(id) => match get_req_str(fields, "name"@) {
                Err(e) => Err(e),
                Ok(name) => match get_category(fields, "category"@) {
                    Err(e) => Err(e),
                    Ok(category) => match get_req_str_list(fields, "photoUrls"@) {
                        Err(e) => Err(e),
                        Ok(photo_urls) => match get_tag_list(fields, "tags"@) {
                            Err(e) => Err(e),
                            Ok(tags) => match get_str(fields, "status"@) {
                                Err(e) => Err(e),
                                Ok(status) => Ok(
                                    PetView { id, name, category, photo_urls, tags, status },
                                ),
                            },
                        },
                    },
                },
            },
        },
        _ => Err(DecodeError::InvalidValue),
    }
}

impl Pet {
    /// The structured document of this value.
    #[verifier::spinoff_prover]
    #[verifier::rlimit(100)]
    pub fn encode_structured(&self) -> (r: Document)
        ensures
            r@ == pet_doc(self@),
    {
        let ghost entries = pet_entries(self@);
        let mut fields: Vec<(String, Document)> = Vec::new();
        proof {
            assert(entries.take(0) =~= Seq::<(Seq<char>, Option<DocView>)>::empty());
            assert(obj_fields_view(fields@) =~= build_fields(entries.take(0)));
        }
        if let Some(n) = self.id {
            push_field(&mut fields, "id", Document::Int(n));
        }
        proof {
            assert(entries.take(1) =~= entries.take(0).push(entries[0]));
            lemma_build_fields_snoc(entries.take(0), entries[0]);
            assert(obj_fields_view(fields@) =~= build_fields(entries.take(1)));
        }
        push_field(&mut fields, "name", Document::Str(self.name.clone()));
        proof {
            assert(entries.take(2) =~= entries.take(1).push(entries[1]));
            lemma_build_fields_snoc(entries.take(1), entries[1]);
            assert(obj_fields_view(fields@) =~= build_fields(entries.take(2)));
        }
        if let Some(c) = &self.category {
            push_field(&mut fields, "category", c.encode_structured());
        }
        proof {
            assert(entries.take(3) =~= entries.take(2).push(entries[2]));
            lemma_build_fields_snoc(entries.take(2), entries[2]);
            assert(obj_fields_view(fields@) =~= build_fields(entries.take(3)));
        }
        let purls = Document::Arr(encode_str_list(&self.photo_urls));
        proof {
            assert(purls@ matches DocView::Arr(els) && els =~= str_list_doc(
                strings_view(self.photo_urls@),
            ));
            assert(purls@ == DocView::Arr(str_list_doc(strings_view(self.photo_urls@))));
        }
        push_field(&mut fields, "photoUrls", purls);
        proof {
            assert(entries.take(4) =~= entries.take(3).push(entries[3]));
            lemma_build_fields_snoc(entries.take(3), entries[3]);
            assert(obj_fields_view(fields@) =~= build_fields(entries.take(4)));
        }
        if let Some(l) = &self.tags {
            let doc = Document::Arr(encode_tag_list(l));
            proof {
                assert(doc@ matches DocView::Arr(els) && els =~= tag_list_doc(
                    l@.map_values(|t: Tag| t@),
                ));
                assert(doc@ == DocView::Arr(tag_list_doc(l@.map_values(|t: Tag| t@))));
            }
            push_field(&mut fields, "tags", doc);
        }
        proof {
            assert(entries.take(5) =~= entries.take(4).push(entries[4]));
            lemma_build_fields_snoc(entries.take(4), entries[4]);
            assert(obj_fields_view(fields@) =~= build_fields(entries.take(5)));
        }
        if let Some(s) = &self.status {
            push_field(&mut fields, "status", Document::Str(s.clone()));
        }
        proof {
            assert(entries.take(6) =~= entries.take(5).push(entries[5]));
            lemma_build_fields_snoc(entries.take(5), entries[5]);
            assert(obj_fields_view(fields@) =~= build_fields(entries.take(6)));
            assert(entries.take(6) =~= entries);
        }
        let r = Document::Obj(fields);
        proof {
            assert(r@ matches DocView::Obj(fv) && fv =~= obj_fields_view(fields@));
        }
        r
    }

    /// Reads a Pet back from a structured document. The two required
    /// fields must be present, or the decode fails with
    /// `MissingRequiredField`.
    pub fn decode_structured(d: &Document) -> (r: Result<Pet, DecodeError>)
        ensures
            res_view(r) == decode_structured_pet_spec(d@),
    {
        let fields: &Vec<(String, Document)> = match d {
            Document::Obj(f) => f,
            _ => {
                return Err(DecodeError::InvalidValue);
            },
        };
        let ghost fv = obj_fields_view(fields@);
        proof {
            assert(d@ matches DocView::Obj(g) && g =~= fv);
        }
        let id: Option<i64> = match doc_obj_get(fields, "id") {
            None => None,
            Some(doc) => match doc {
                Document::Int(n) => Some(*n),
                _ => {
                    return Err(DecodeError::InvalidValue);
                },
            },
        };
        let name: String = match doc_obj_get(fields, "name") {
            None => {
                return Err(DecodeError::MissingRequiredField);
            },
            Some(doc) => match doc {
                Document::Str(s) => s.clone(),
                _ => {
                    return Err(DecodeError::InvalidValue);
                },
            },
        };
        let category: Option<Category> = match doc_obj_get(fields, "category") {
            None => None,
            Some(doc) => match Category::decode_structured(doc) {
                Ok(c) => Some(c),
                Err(e) => {
                    return Err(e);
                },
            },
        };
        let photo_urls: Vec<String> = match doc_obj_get(fields, "photoUrls") {
            None => {
                return Err(DecodeError::MissingRequiredField);
            },
            Some(doc) => match doc {
                Document::Arr(items) => match ({
                    proof {
                        assert(doc.dview() matches DocView::Arr(els) && els =~= docs_view(items@));
                    }
                    decode_str_list_exec(items)
                }) {
                    Ok(l) => l,
                    Err(e) => {
                        return Err(e);
                    },
                },
                _ => {
                    return Err(DecodeError::InvalidValue);
                },
            },
        };
        let tags: Option<Vec<Tag>> = match doc_obj_get(fields, "tags") {
            None => None,
            Some(doc) => match doc {
                Document::Arr(items) => match ({
                    proof {
                        assert(doc.dview() matches DocView::Arr(els) && els =~= docs_view(items@));
                    }
                    decode_tag_list_exec(items)
                }) {
                    Ok(l) => Some(l),
                    Err(e) => {
                        return Err(e);
                    },
                },
                _ => {
                    return Err(DecodeError::InvalidValue);
                },
            },
        };
        let status: Option<String> = match doc_obj_get(fields, "status") {
            None => None,
            Some(doc) => match doc {
                Document::Str(s) => Some(s.clone()),
                _ => {
                    return Err(DecodeError::InvalidValue);
                },
            },
        };
        Ok(Pet { id, name, category, photo_urls, tags, status })
    }
}

/// A Pet decoded from its own structured document is itself, for every
/// Pet: the structured form carries every field of the type.
pub proof fn lemma_structured_round_trip_pet(v: PetView)
    ensures
        decode_structured_pet_spec(pet_doc(v)) == Ok::<PetView, DecodeError>(v),
{
    reveal_strlit("id");
    reveal_strlit("name");
    reveal_strlit("category");
    reveal_strlit("photoUrls");
    reveal_strlit("tags");
    reveal_strlit("status");
    assert("name"@[0] == 'n' && "tags"@[0] == 't');
    assert("name"@ != "tags"@);
    let entries = pet_entries(v);
    assert(entries[0].0 == "id"@);
    assert(entries[1].0 == "name"@);
    assert(entries[2].0 == "category"@);
    assert(entries[3].0 == "photoUrls"@);
    assert(entries[4].0 == "tags"@);
    assert(entries[5].0 == "status"@);
    lemma_build_lookup(entries, 0);
    lemma_build_lookup(entries, 1);
    lemma_build_lookup(entries, 2);
    lemma_build_lookup(entries, 3);
    lemma_build_lookup(entries, 4);
    lemma_build_lookup(entries, 5);
    if let Some(c) = v.category {
        lemma_structured_round_trip_category(c);
    }
    lemma_str_list_round_trip(v.photo_urls, Seq::empty());
    assert(Seq::<Seq<char>>::empty() + v.photo_urls =~= v.photo_urls);
    if let Some(l) = v.tags {
        lemma_tag_list_round_trip(l, Seq::empty());
        assert(Seq::<TagView>::empty() + l =~= l);
    }
}


/// Documents of a list of pets.
pub open spec fn pet_list_doc(items: Seq<PetView>) -> Seq<DocView> {
    items.map_values(|v: PetView| pet_doc(v))
}

/// Documents of a list of users.
pub open spec fn user_list_doc(items: Seq<UserView>) -> Seq<DocView> {
    items.map_values(|v: UserView| user_doc(v))
}

/// Reads a list of user objects, left to right.
pub open spec fn decode_user_list(items: Seq<DocView>, acc: Seq<UserView>) -> Result<
    Seq<UserView>,
    DecodeError,
>
    decreases items.len(),
{
    if items.len() == 0 {
        Ok(acc)
    } else {
        match decode_structured_user_spec(items[0]) {
            Ok(u) => decode_user_list(items.drop_first(), acc.push(u)),
            Err(e) => Err(e),
        }
    }
}

pub proof fn lemma_user_list_round_trip(items: Seq<UserView>, acc: Seq<UserView>)
    ensures
        decode_user_list(user_list_doc(items), acc) == Ok::<Seq<UserView>, DecodeError>(
            acc + items,
        ),
    decreases items.len(),
{
    let docs = user_list_doc(items);
    if items.len() == 0 {
        assert(acc + items =~= acc);
    } else {
        assert(docs[0] == user_doc(items[0]));
        lemma_structured_round_trip_user(items[0]);
        assert(docs.drop_first() =~= user_list_doc(items.drop_first()));
        lemma_user_list_round_trip(items.drop_first(), acc.push(items[0]));
        assert(acc.push(items[0]) + items.drop_first() =~= acc + items);
    }
}

/// Encodes a list of pets as their structured documents.
pub fn encode_pet_list(items: &Vec<Pet>) -> (r: Vec<Document>)
    ensures
        docs_view(r@) == pet_list_doc(items@.map_values(|p: Pet| p@)),
{
    let mut out: Vec<Document> = Vec::new();
    let mut i: usize = 0;
    while i < items.len()
        invariant
            i <= items.len(),
            out@.len() == i,
            forall|j: int| 0 <= j < i ==> (#[trigger] out@[j].dview()) == pet_doc(items@[j]@),
        decreases items.len() - i,
    {
        out.push(items[i].encode_structured());
        i += 1;
    }
    proof {
        assert(docs_view(out@) =~= pet_list_doc(items@.map_values(|p: Pet| p@)));
    }
    out
}

/// Reads a list of user objects back from their documents.
pub fn decode_user_list_exec(items: &Vec<Document>) -> (r: Result<Vec<User>, DecodeError>)
    ensures
        match r {
            Ok(v) => decode_user_list(docs_view(items@), Seq::empty()) == Ok::<
                Seq<UserView>,
                DecodeError,
            >(v@.map_values(|u: User| u@)),
            Err(e) => decode_user_list(docs_view(items@), Seq::empty()) == Err::<
                Seq<UserView>,
                DecodeError,
            >(e),
        },
{
    let ghost dv = docs_view(items@);
    let mut out: Vec<User> = Vec::new();
    let mut i: usize = 0;
    proof {
        assert(dv.skip(0) =~= dv);
        assert(out@.map_values(|u: User| u@) =~= Seq::<UserView>::empty());
    }
    while i < items.len()
        invariant
            i <= items.len(),
            dv == docs_view(items@),
            decode_user_list(dv.skip(i as int), out@.map_values(|u: User| u@)) == decode_user_list(
                dv,
                Seq::empty(),
            ),
        decreases items.len() - i,
    {
        let ghost pre = out@.map_values(|u: User| u@);
        proof {
            assert(dv.skip(i as int)[0] == dv[i as int]);
            assert(dv[i as int] == items@[i as int].dview());
            assert(dv.skip(i as int).drop_first() =~= dv.skip(i as int + 1));
        }
        match User::decode_structured(&items[i]) {
            Ok(u) => {
                let ghost uv = u@;
                out.push(u);
                proof {
                    assert(out@.map_values(|u: User| u@) =~= pre.push(uv));
                }
            },
            Err(e) => {
                return Err(e);
            },
        }
        i += 1;
    }
    proof {
        assert(dv.skip(i as int) =~= Seq::<DocView>::empty());
    }
    Ok(out)
}

/// The inventory map seen mathematically: status names to counts.
pub open spec fn inventory_view(items: Seq<(String, i32)>) -> Seq<(Seq<char>, i32)> {
    items.map_values(|p: (String, i32)| (p.0@, p.1))
}

/// The structured document of an inventory: one integer field per status.
pub open spec fn inventory_doc(items: Seq<(Seq<char>, i32)>) -> DocView {
    DocView::Obj(items.map_values(|p: (Seq<char>, i32)| (p.0, DocView::Int(p.1 as i64))))
}

/// Encodes the inventory as an object of counts.
pub fn encode_inventory(items: &Vec<(String, i32)>) -> (r: Document)
    ensures
        r@ == inventory_doc(inventory_view(items@)),
{
    let mut fields: Vec<(String, Document)> = Vec::new();
    let mut i: usize = 0;
    while i < items.len()
        invariant
            i <= items.len(),
            fields@.len() == i,
            forall|j: int|
                0 <= j < i ==> (#[trigger] fields@[j].0@) == items@[j].0@ && fields@[j].1.dview()
                    == DocView::Int(items@[j].1 as i64),
        decreases items.len() - i,
    {
        fields.push((items[i].0.clone(), Document::Int(items[i].1 as i64)));
        i += 1;
    }
    let r = Document::Obj(fields);
    proof {
        assert(r@ matches DocView::Obj(g) && g =~= inventory_view(items@).map_values(
            |p: (Seq<char>, i32)| (p.0, DocView::Int(p.1 as i64)),
        ));
    }
    r
}

} // verus!
