//! The flattened wire form: one line of `key,value` tokens joined by `,`.
//!
//! Encoding emits a pair of tokens for every present scalar field, in the
//! type's field order; fields holding nested model values in collections are
//! skipped. Decoding splits the line into tokens, reads them as alternating
//! keys and values (the last value for a repeated key wins), and rejects
//! unknown keys, trailing keys, container fields and malformed scalars.

use vstd::prelude::*;

use crate::datetime::{datetime_ok, datetime_text_ok, UtcDateTime};
use crate::error::DecodeError;
use crate::models::{
    opt_view, strings_view, Address, AddressView, ApiResponse, ApiResponseView, Category,
    CategoryView, Customer, CustomerView, Order, OrderView, Pet, PetView, Tag, TagView, User,
    UserView,
};
use crate::nums::{
    bool_str, i64_dec, parse_bool, parse_bool_spec, parse_i32, parse_i32_spec, parse_i64,
    parse_i64_spec, bool_to_string, i32_to_string, i64_to_string,
};
use crate::strutil::{is_kw, join_commas, join_commas_exec, split_commas, split_commas_exec};

verus! {

/// Result of a decoder, seen through the view of the value it built.
pub open spec fn res_view<T: View>(r: Result<T, DecodeError>) -> Result<T::V, DecodeError> {
    match r {
        Ok(v) => Ok(v@),
        Err(e) => Err(e),
    }
}

/// Reads tokens as alternating keys and values, folding each pair into the
/// partial value with `step`. A lone trailing key is an error.
pub open spec fn decode_pairs<A>(
    toks: Seq<Seq<char>>,
    acc: A,
    step: spec_fn(A, Seq<char>, Seq<char>) -> Result<A, DecodeError>,
) -> Result<A, DecodeError>
    decreases toks.len(),
{
    if toks.len() == 0 {
        Ok(acc)
    } else if toks.len() == 1 {
        Err(DecodeError::MissingValue)
    } else {
        match step(acc, toks[0], toks[1]) {
            Ok(a2) => decode_pairs(toks.skip(2), a2, step),
            Err(e) => Err(e),
        }
    }
}

/// Pair decoding over a whole-pair prefix proceeds into the rest from the
/// state the prefix built, and a prefix error is final.
pub proof fn lemma_decode_pairs_append<A>(
    a: Seq<Seq<char>>,
    b: Seq<Seq<char>>,
    acc: A,
    step: spec_fn(A, Seq<char>, Seq<char>) -> Result<A, DecodeError>,
)
    requires
        a.len() % 2 == 0,
    ensures
        decode_pairs(a + b, acc, step) == (match decode_pairs(a, acc, step) {
            Ok(m) => decode_pairs(b, m, step),
            Err(e) => Err(e),
        }),
    decreases a.len(),
{
    if a.len() == 0 {
        assert(a + b =~= b);
    } else {
        let ab = a + b;
        assert(ab[0] == a[0]);
        assert(ab[1] == a[1]);
        match step(acc, a[0], a[1]) {
            Ok(m) => {
                assert(ab.skip(2) =~= a.skip(2) + b);
                lemma_decode_pairs_append(a.skip(2), b, m, step);
            },
            Err(e) => {
                if ab.len() == 1 {
                } else {
                }
            },
        }
    }
}

pub open spec fn category_empty() -> CategoryView {
    CategoryView { id: None, name: None }
}

/// How one `key,value` pair lands in a partial Category.
pub open spec fn category_step(acc: CategoryView, k: Seq<char>, v: Seq<char>) -> Result<
    CategoryView,
    DecodeError,
> {
    if k == "id"@ {
        match parse_i64_spec(v) {
            Some(n) => Ok(CategoryView { id: Some(n), ..acc }),
            None => Err(DecodeError::InvalidValue),
        }
    } else if k == "name"@ {
        Ok(CategoryView { name: Some(v), ..acc })
    } else {
        Err(DecodeError::UnexpectedKey)
    }
}

pub open spec fn category_step_fn() -> spec_fn(CategoryView, Seq<char>, Seq<char>) -> Result<
    CategoryView,
    DecodeError,
> {
    |a: CategoryView, k: Seq<char>, v: Seq<char>| category_step(a, k, v)
}

pub open spec fn decode_flat_category_spec(s: Seq<char>) -> Result<CategoryView, DecodeError> {
    decode_pairs(split_commas(s), category_empty(), category_step_fn())
}

/// The `key,value` token run of a Category, one pair per present field.
pub open spec fn category_segs(v: CategoryView) -> Seq<Seq<char>> {
    (match v.id {
        Some(n) => seq!["id"@, i64_dec(n as int)],
        None => seq![],
    }) + (match v.name {
        Some(s) => seq!["name"@, s],
        None => seq![],
    })
}

pub open spec fn encode_flat_category_spec(v: CategoryView) -> Seq<char> {
    join_commas(category_segs(v))
}

impl Category {
    /// The flattened form of this value.
    pub fn encode_flat(&self) -> (r: String)
        ensures
            r@ == encode_flat_category_spec(self@),
    {
        let mut segs: Vec<String> = Vec::new();
        if let Some(n) = self.id {
            segs.push(String::from_str("id"));
            segs.push(i64_to_string(n));
        }
        if let Some(s) = &self.name {
            segs.push(String::from_str("name"));
            segs.push(s.clone());
        }
        proof {
            assert(segs@.map_values(|t: String| t@) =~= category_segs(self@));
        }
        join_commas_exec(&segs)
    }

    /// Reads a Category back from its flattened form.
    pub fn decode_flat(s: &str) -> (r: Result<Category, DecodeError>)
        ensures
            res_view(r) == decode_flat_category_spec(s@),
    {
        let toks = split_commas_exec(s);
        let ghost all = toks@.map_values(|t: String| t@);
        let ghost stepf = category_step_fn();
        let mut id: Option<i64> = None;
        let mut name: Option<String> = None;
        let mut i: usize = 0;
        proof {
            assert(all.skip(0) =~= all);
        }
        loop
            invariant
                i <= toks.len(),
                all == toks@.map_values(|t: String| t@),
                stepf == category_step_fn(),
                decode_pairs(
                    all.skip(i as int),
                    CategoryView { id: id, name: opt_view(name) },
                    stepf,
                ) == decode_flat_category_spec(s@),
            ensures
                i >= toks.len(),
            decreases toks.len() - i,
        {
            let ghost acc = CategoryView { id: id, name: opt_view(name) };
            if i >= toks.len() {
                proof {
                    assert(all.skip(i as int) =~= Seq::<Seq<char>>::empty());
                    assert(decode_pairs(all.skip(i as int), acc, stepf) == Ok::<
                        CategoryView,
                        DecodeError,
                    >(acc));
                }
                break ;
            }
            if i + 1 >= toks.len() {
                proof {
                    assert(all.skip(i as int).len() == 1);
                }
                return Err(DecodeError::MissingValue);
            }
            proof {
                assert(all[i as int] == toks@[i as int]@);
                assert(all[i as int + 1] == toks@[i as int + 1]@);
                assert(all.skip(i as int)[0] == all[i as int]);
                assert(all.skip(i as int)[1] == all[i as int + 1]);
                assert(all.skip(i as int).skip(2) =~= all.skip(i as int + 2));
                assert(stepf(acc, all[i as int], all[i as int + 1]) == category_step(
                    acc,
                    all[i as int],
                    all[i as int + 1],
                ));
            }
            let k = &toks[i];
            let v = &toks[i + 1];
            if is_kw(k, "id") {
                match parse_i64(v.as_str()) {
                    Some(n) => {
                        id = Some(n);
                    },
                    None => {
                        return Err(DecodeError::InvalidValue);
                    },
                }
            } else if is_kw(k, "name") {
                name = Some(v.clone());
            } else {
                return Err(DecodeError::UnexpectedKey);
            }
            i += 2;
        }
        proof {
            assert(all.skip(i as int) =~= Seq::<Seq<char>>::empty());
            assert(decode_pairs(
                all.skip(i as int),
                CategoryView { id: id, name: opt_view(name) },
                stepf,
            ) == Ok::<CategoryView, DecodeError>(CategoryView { id: id, name: opt_view(name) }));
        }
        Ok(Category { id, name })
    }
}

pub open spec fn tag_empty() -> TagView {
    TagView { id: None, name: None }
}

/// How one `key,value` pair lands in a partial Tag.
pub open spec fn tag_step(acc: TagView, k: Seq<char>, v: Seq<char>) -> Result<TagView, DecodeError> {
    if k == "id"@ {
        match parse_i64_spec(v) {
            Some(n) => Ok(TagView { id: Some(n), ..acc }),
            None => Err(DecodeError::InvalidValue),
        }
    } else if k == "name"@ {
        Ok(TagView { name: Some(v), ..acc })
    } else {
        Err(DecodeError::UnexpectedKey)
    }
}

pub open spec fn tag_step_fn() -> spec_fn(TagView, Seq<char>, Seq<char>) -> Result<
    TagView,
    DecodeError,
> {
    |a: TagView, k: Seq<char>, v: Seq<char>| tag_step(a, k, v)
}

pub open spec fn decode_flat_tag_spec(s: Seq<char>) -> Result<TagView, DecodeError> {
    decode_pairs(split_commas(s), tag_empty(), tag_step_fn())
}

/// The `key,value` token run of a Tag, one pair per present field.
pub open spec fn tag_segs(v: TagView) -> Seq<Seq<char>> {
    (match v.id {
        Some(n) => seq!["id"@, i64_dec(n as int)],
        None => seq![],
    }) + (match v.name {
        Some(s) => seq!["name"@, s],
        None => seq![],
    })
}

pub open spec fn encode_flat_tag_spec(v: TagView) -> Seq<char> {
    join_commas(tag_segs(v))
}

impl Tag {
    /// The flattened form of this value.
    pub fn encode_flat(&self) -> (r: String)
        ensures
            r@ == encode_flat_tag_spec(self@),
    {
        let mut segs: Vec<String> = Vec::new();
        if let Some(n) = self.id {
            segs.push(String::from_str("id"));
            segs.push(i64_to_string(n));
        }
        if let Some(s) = &self.name {
            segs.push(String::from_str("name"));
            segs.push(s.clone());
        }
        proof {
            assert(segs@.map_values(|t: String| t@) =~= tag_segs(self@));
        }
        join_commas_exec(&segs)
    }

    /// Reads a Tag back from its flattened form.
    pub fn decode_flat(s: &str) -> (r: Result<Tag, DecodeError>)
        ensures
            res_view(r) == decode_flat_tag_spec(s@),
    {
        let toks = split_commas_exec(s);
        let ghost all = toks@.map_values(|t: String| t@);
        let ghost stepf = tag_step_fn();
        let mut id: Option<i64> = None;
        let mut name: Option<String> = None;
        let mut i: usize = 0;
        proof {
            assert(all.skip(0) =~= all);
        }
        loop
            invariant
                i <= toks.len(),
                all == toks@.map_values(|t: String| t@),
                stepf == tag_step_fn(),
                decode_pairs(all.skip(i as int), TagView { id: id, name: opt_view(name) }, stepf)
                    == decode_flat_tag_spec(s@),
            ensures
                i >= toks.len(),
            decreases toks.len() - i,
        {
            let ghost acc = TagView { id: id, name: opt_view(name) };
            if i >= toks.len() {
                proof {
                    assert(all.skip(i as int) =~= Seq::<Seq<char>>::empty());
                    assert(decode_pairs(all.skip(i as int), acc, stepf) == Ok::<
                        TagView,
                        DecodeError,
                    >(acc));
                }
                break ;
            }
            if i + 1 >= toks.len() {
                proof {
                    assert(all.skip(i as int).len() == 1);
                }
                return Err(DecodeError::MissingValue);
            }
            proof {
                assert(all[i as int] == toks@[i as int]@);
                assert(all[i as int + 1] == toks@[i as int + 1]@);
                assert(all.skip(i as int)[0] == all[i as int]);
                assert(all.skip(i as int)[1] == all[i as int + 1]);
                assert(all.skip(i as int).skip(2) =~= all.skip(i as int + 2));
                assert(stepf(acc, all[i as int], all[i as int + 1]) == tag_step(
                    acc,
                    all[i as int],
                    all[i as int + 1],
                ));
            }
            let k = &toks[i];
            let v = &toks[i + 1];
            if is_kw(k, "id") {
                match parse_i64(v.as_str()) {
                    Some(n) => {
                        id = Some(n);
                    },
                    None => {
                        return Err(DecodeError::InvalidValue);
                    },
                }
            } else if is_kw(k, "name") {
                name = Some(v.clone());
            } else {
                return Err(DecodeError::UnexpectedKey);
            }
            i += 2;
        }
        proof {
            assert(all.skip(i as int) =~= Seq::<Seq<char>>::empty());
            assert(decode_pairs(all.skip(i as int), TagView { id: id, name: opt_view(name) }, stepf)
                == Ok::<TagView, DecodeError>(TagView { id: id, name: opt_view(name) }));
        }
        Ok(Tag { id, name })
    }
}

pub open spec fn address_empty() -> AddressView {
    AddressView { street: None, city: None, state: None, zip: None }
}

/// How one `key,value` pair lands in a partial Address.
pub open spec fn address_step(acc: AddressView, k: Seq<char>, v: Seq<char>) -> Result<
    AddressView,
    DecodeError,
> {
    if k == "street"@ {
        Ok(AddressView { street: Some(v), ..acc })
    } else if k == "city"@ {
        Ok(AddressView { city: Some(v), ..acc })
    } else if k == "state"@ {
        Ok(AddressView { state: Some(v), ..acc })
    } else if k == "zip"@ {
        Ok(AddressView { zip: Some(v), ..acc })
    } else {
        Err(DecodeError::UnexpectedKey)
    }
}

pub open spec fn address_step_fn() -> spec_fn(AddressView, Seq<char>, Seq<char>) -> Result<
    AddressView,
    DecodeError,
> {
    |a: AddressView, k: Seq<char>, v: Seq<char>| address_step(a, k, v)
}

pub open spec fn decode_flat_address_spec(s: Seq<char>) -> Result<AddressView, DecodeError> {
    decode_pairs(split_commas(s), address_empty(), address_step_fn())
}

/// The `key,value` token run of an Address, one pair per present field.
pub open spec fn address_segs(v: AddressView) -> Seq<Seq<char>> {
    (match v.street {
        Some(s) => seq!["street"@, s],
        None => seq![],
    }) + (match v.city {
        Some(s) => seq!["city"@, s],
        None => seq![],
    }) + (match v.state {
        Some(s) => seq!["state"@, s],
        None => seq![],
    }) + (match v.zip {
        Some(s) => seq!["zip"@, s],
        None => seq![],
    })
}

pub open spec fn encode_flat_address_spec(v: AddressView) -> Seq<char> {
    join_commas(address_segs(v))
}

impl Address {
    /// The flattened form of this value.
    pub fn encode_flat(&self) -> (r: String)
        ensures
            r@ == encode_flat_address_spec(self@),
    {
        let mut segs: Vec<String> = Vec::new();
        if let Some(s) = &self.street {
            segs.push(String::from_str("street"));
            segs.push(s.clone());
        }
        if let Some(s) = &self.city {
            segs.push(String::from_str("city"));
            segs.push(s.clone());
        }
        if let Some(s) = &self.state {
            segs.push(String::from_str("state"));
            segs.push(s.clone());
        }
        if let Some(s) = &self.zip {
            segs.push(String::from_str("zip"));
            segs.push(s.clone());
        }
        proof {
            assert(segs@.map_values(|t: String| t@) =~= address_segs(self@));
        }
        join_commas_exec(&segs)
    }

    /// Reads an Address back from its flattened form.
    pub fn decode_flat(s: &str) -> (r: Result<Address, DecodeError>)
        ensures
            res_view(r) == decode_flat_address_spec(s@),
    {
        let toks = split_commas_exec(s);
        let ghost all = toks@.map_values(|t: String| t@);
        let ghost stepf = address_step_fn();
        let mut street: Option<String> = None;
        let mut city: Option<String> = None;
        let mut state: Option<String> = None;
        let mut zip: Option<String> = None;
        let mut i: usize = 0;
        proof {
            assert(all.skip(0) =~= all);
        }
        loop
            invariant
                i <= toks.len(),
                all == toks@.map_values(|t: String| t@),
                stepf == address_step_fn(),
                decode_pairs(
                    all.skip(i as int),
                    AddressView {
                        street: opt_view(street),
                        city: opt_view(city),
                        state: opt_view(state),
                        zip: opt_view(zip),
                    },
                    stepf,
                ) == decode_flat_address_spec(s@),
            ensures
                i >= toks.len(),
            decreases toks.len() - i,
        {
            let ghost acc = AddressView {
                street: opt_view(street),
                city: opt_view(city),
                state: opt_view(state),
                zip: opt_view(zip),
            };
            if i >= toks.len() {
                proof {
                    assert(all.skip(i as int) =~= Seq::<Seq<char>>::empty());
                    assert(decode_pairs(all.skip(i as int), acc, stepf) == Ok::<
                        AddressView,
                        DecodeError,
                    >(acc));
                }
                break ;
            }
            if i + 1 >= toks.len() {
                proof {
                    assert(all.skip(i as int).len() == 1);
                }
                return Err(DecodeError::MissingValue);
            }
            proof {
                assert(all[i as int] == toks@[i as int]@);
                assert(all[i as int + 1] == toks@[i as int + 1]@);
                assert(all.skip(i as int)[0] == all[i as int]);
                assert(all.skip(i as int)[1] == all[i as int + 1]);
                assert(all.skip(i as int).skip(2) =~= all.skip(i as int + 2));
                assert(stepf(acc, all[i as int], all[i as int + 1]) == address_step(
                    acc,
                    all[i as int],
                    all[i as int + 1],
                ));
            }
            let k = &toks[i];
            let v = &toks[i + 1];
            if is_kw(k, "street") {
                street = Some(v.clone());
            } else if is_kw(k, "city") {
                city = Some(v.clone());
            } else if is_kw(k, "state") {
                state = Some(v.clone());
            } else if is_kw(k, "zip") {
                zip = Some(v.clone());
            } else {
                return Err(DecodeError::UnexpectedKey);
            }
            i += 2;
        }
        proof {
            let acc = AddressView {
                street: opt_view(street),
                city: opt_view(city),
                state: opt_view(state),
                zip: opt_view(zip),
            };
            assert(all.skip(i as int) =~= Seq::<Seq<char>>::empty());
            assert(decode_pairs(all.skip(i as int), acc, stepf) == Ok::<AddressView, DecodeError>(
                acc,
            ));
        }
        Ok(Address { street, city, state, zip })
    }
}

pub open spec fn api_response_empty() -> ApiResponseView {
    ApiResponseView { code: None, type_: None, message: None }
}

/// How one `key,value` pair lands in a partial ApiResponse. The wire key of
/// the `type_` field is `type`.
pub open spec fn api_response_step(acc: ApiResponseView, k: Seq<char>, v: Seq<char>) -> Result<
    ApiResponseView,
    DecodeError,
> {
    if k == "code"@ {
        match parse_i32_spec(v) {
            Some(n) => Ok(ApiResponseView { code: Some(n), ..acc }),
            None => Err(DecodeError::InvalidValue),
        }
    } else if k == "type"@ {
        Ok(ApiResponseView { type_: Some(v), ..acc })
    } else if k == "message"@ {
        Ok(ApiResponseView { message: Some(v), ..acc })
    } else {
        Err(DecodeError::UnexpectedKey)
    }
}

pub open spec fn api_response_step_fn() -> spec_fn(ApiResponseView, Seq<char>, Seq<char>) -> Result<
    ApiResponseView,
    DecodeError,
> {
    |a: ApiResponseView, k: Seq<char>, v: Seq<char>| api_response_step(a, k, v)
}

pub open spec fn decode_flat_api_response_spec(s: Seq<char>) -> Result<
    ApiResponseView,
    DecodeError,
> {
    decode_pairs(split_commas(s), api_response_empty(), api_response_step_fn())
}

/// The `key,value` token run of an ApiResponse, one pair per present field.
pub open spec fn api_response_segs(v: ApiResponseView) -> Seq<Seq<char>> {
    (match v.code {
        Some(n) => seq!["code"@, i64_dec(n as int)],
        None => seq![],
    }) + (match v.type_ {
        Some(s) => seq!["type"@, s],
        None => seq![],
    }) + (match v.message {
        Some(s) => seq!["message"@, s],
        None => seq![],
    })
}

pub open spec fn encode_flat_api_response_spec(v: ApiResponseView) -> Seq<char> {
    join_commas(api_response_segs(v))
}

impl ApiResponse {
    /// The flattened form of this value.
    pub fn encode_flat(&self) -> (r: String)
        ensures
            r@ == encode_flat_api_response_spec(self@),
    {
        let mut segs: Vec<String> = Vec::new();
        if let Some(n) = self.code {
            segs.push(String::from_str("code"));
            segs.push(i32_to_string(n));
        }
        if let Some(s) = &self.type_ {
            segs.push(String::from_str("type"));
            segs.push(s.clone());
        }
        if let Some(s) = &self.message {
            segs.push(String::from_str("message"));
            segs.push(s.clone());
        }
        proof {
            assert(segs@.map_values(|t: String| t@) =~= api_response_segs(self@));
        }
        join_commas_exec(&segs)
    }

    /// Reads an ApiResponse back from its flattened form.
    pub fn decode_flat(s: &str) -> (r: Result<ApiResponse, DecodeError>)
        ensures
            res_view(r) == decode_flat_api_response_spec(s@),
    {
        let toks = split_commas_exec(s);
        let ghost all = toks@.map_values(|t: String| t@);
        let ghost stepf = api_response_step_fn();
        let mut code: Option<i32> = None;
        let mut type_: Option<String> = None;
        let mut message: Option<String> = None;
        let mut i: usize = 0;
        proof {
            assert(all.skip(0) =~= all);
        }
        loop
            invariant
                i <= toks.len(),
                all == toks@.map_values(|t: String| t@),
                stepf == api_response_step_fn(),
                decode_pairs(
                    all.skip(i as int),
                    ApiResponseView {
                        code: code,
                        type_: opt_view(type_),
                        message: opt_view(message),
                    },
                    stepf,
                ) == decode_flat_api_response_spec(s@),
            ensures
                i >= toks.len(),
            decreases toks.len() - i,
        {
            let ghost acc = ApiResponseView {
                code: code,
                type_: opt_view(type_),
                message: opt_view(message),
            };
            if i >= toks.len() {
                proof {
                    assert(all.skip(i as int) =~= Seq::<Seq<char>>::empty());
                    assert(decode_pairs(all.skip(i as int), acc, stepf) == Ok::<
                        ApiResponseView,
                        DecodeError,
                    >(acc));
                }
                break ;
            }
            if i + 1 >= toks.len() {
                proof {
                    assert(all.skip(i as int).len() == 1);
                }
                return Err(DecodeError::MissingValue);
            }
            proof {
                assert(all[i as int] == toks@[i as int]@);
                assert(all[i as int + 1] == toks@[i as int + 1]@);
                assert(all.skip(i as int)[0] == all[i as int]);
                assert(all.skip(i as int)[1] == all[i as int + 1]);
                assert(all.skip(i as int).skip(2) =~= all.skip(i as int + 2));
                assert(stepf(acc, all[i as int], all[i as int + 1]) == api_response_step(
                    acc,
                    all[i as int],
                    all[i as int + 1],
                ));
            }
            let k = &toks[i];
            let v = &toks[i + 1];
            if is_kw(k, "code") {
                match parse_i32(v.as_str()) {
                    Some(n) => {
                        code = Some(n);
                    },
                    None => {
                        return Err(DecodeError::InvalidValue);
                    },
                }
            } else if is_kw(k, "type") {
                type_ = Some(v.clone());
            } else if is_kw(k, "message") {
                message = Some(v.clone());
            } else {
                return Err(DecodeError::UnexpectedKey);
            }
            i += 2;
        }
        proof {
            let acc = ApiResponseView {
                code: code,
                type_: opt_view(type_),
                message: opt_view(message),
            };
            assert(all.skip(i as int) =~= Seq::<Seq<char>>::empty());
            assert(decode_pairs(all.skip(i as int), acc, stepf) == Ok::<
                ApiResponseView,
                DecodeError,
            >(acc));
        }
        Ok(ApiResponse { code, type_, message })
    }
}

pub open spec fn customer_empty() -> CustomerView {
    CustomerView { id: None, username: None, address: None }
}

/// How one `key,value` pair lands in a partial Customer. The `address`
/// field holds model values in a collection, which the flattened form
/// cannot carry.
pub open spec fn customer_step(acc: CustomerView, k: Seq<char>, v: Seq<char>) -> Result<
    CustomerView,
    DecodeError,
> {
    if k == "id"@ {
        match parse_i64_spec(v) {
            Some(n) => Ok(CustomerView { id: Some(n), ..acc }),
            None => Err(DecodeError::InvalidValue),
        }
    } else if k == "username"@ {
        Ok(CustomerView { username: Some(v), ..acc })
    } else if k == "address"@ {
        Err(DecodeError::UnsupportedContainer)
    } else {
        Err(DecodeError::UnexpectedKey)
    }
}

pub open spec fn customer_step_fn() -> spec_fn(CustomerView, Seq<char>, Seq<char>) -> Result<
    CustomerView,
    DecodeError,
> {
    |a: CustomerView, k: Seq<char>, v: Seq<char>| customer_step(a, k, v)
}

pub open spec fn decode_flat_customer_spec(s: Seq<char>) -> Result<CustomerView, DecodeError> {
    decode_pairs(split_commas(s), customer_empty(), customer_step_fn())
}

/// The `key,value` token run of a Customer: one pair per present scalar
/// field; the `address` collection is skipped.
pub open spec fn customer_segs(v: CustomerView) -> Seq<Seq<char>> {
    (match v.id {
        Some(n) => seq!["id"@, i64_dec(n as int)],
        None => seq![],
    }) + (match v.username {
        Some(s) => seq!["username"@, s],
        None => seq![],
    })
}

pub open spec fn encode_flat_customer_spec(v: CustomerView) -> Seq<char> {
    join_commas(customer_segs(v))
}

impl Customer {
    /// The flattened form of this value. The `address` collection is
    /// skipped: the flattened form cannot carry it.
    pub fn encode_flat(&self) -> (r: String)
        ensures
            r@ == encode_flat_customer_spec(self@),
    {
        let mut segs: Vec<String> = Vec::new();
        if let Some(n) = self.id {
            segs.push(String::from_str("id"));
            segs.push(i64_to_string(n));
        }
        if let Some(s) = &self.username {
            segs.push(String::from_str("username"));
            segs.push(s.clone());
        }
        proof {
            assert(segs@.map_values(|t: String| t@) =~= customer_segs(self@));
        }
        join_commas_exec(&segs)
    }

    /// Reads a Customer back from its flattened form.
    pub fn decode_flat(s: &str) -> (r: Result<Customer, DecodeError>)
        ensures
            res_view(r) == decode_flat_customer_spec(s@),
    {
        let toks = split_commas_exec(s);
        let ghost all = toks@.map_values(|t: String| t@);
        let ghost stepf = customer_step_fn();
        let mut id: Option<i64> = None;
        let mut username: Option<String> = None;
        let mut i: usize = 0;
        proof {
            assert(all.skip(0) =~= all);
        }
        loop
            invariant
                i <= toks.len(),
                all == toks@.map_values(|t: String| t@),
                stepf == customer_step_fn(),
                decode_pairs(
                    all.skip(i as int),
                    CustomerView { id: id, username: opt_view(username), address: None },
                    stepf,
                ) == decode_flat_customer_spec(s@),
            ensures
                i >= toks.len(),
            decreases toks.len() - i,
        {
            let ghost acc = CustomerView { id: id, username: opt_view(username), address: None };
            if i >= toks.len() {
                proof {
                    assert(all.skip(i as int) =~= Seq::<Seq<char>>::empty());
                    assert(decode_pairs(all.skip(i as int), acc, stepf) == Ok::<
                        CustomerView,
                        DecodeError,
                    >(acc));
                }
                break ;
            }
            if i + 1 >= toks.len() {
                proof {
                    assert(all.skip(i as int).len() == 1);
                }
                return Err(DecodeError::MissingValue);
            }
            proof {
                assert(all[i as int] == toks@[i as int]@);
                assert(all[i as int + 1] == toks@[i as int + 1]@);
                assert(all.skip(i as int)[0] == all[i as int]);
                assert(all.skip(i as int)[1] == all[i as int + 1]);
                assert(all.skip(i as int).skip(2) =~= all.skip(i as int + 2));
                assert(stepf(acc, all[i as int], all[i as int + 1]) == customer_step(
                    acc,
                    all[i as int],
                    all[i as int + 1],
                ));
            }
            let k = &toks[i];
            let v = &toks[i + 1];
            if is_kw(k, "id") {
                match parse_i64(v.as_str()) {
                    Some(n) => {
                        id = Some(n);
                    },
                    None => {
                        return Err(DecodeError::InvalidValue);
                    },
                }
            } else if is_kw(k, "username") {
                username = Some(v.clone());
            } else if is_kw(k, "address") {
                return Err(DecodeError::UnsupportedContainer);
            } else {
                return Err(DecodeError::UnexpectedKey);
            }
            i += 2;
        }
        proof {
            let acc = CustomerView { id: id, username: opt_view(username), address: None };
            assert(all.skip(i as int) =~= Seq::<Seq<char>>::empty());
            assert(decode_pairs(all.skip(i as int), acc, stepf) == Ok::<CustomerView, DecodeError>(
                acc,
            ));
        }
        Ok(Customer { id, username, address: None })
    }
}

pub open spec fn order_empty() -> OrderView {
    OrderView { id: None, pet_id: None, quantity: None, ship_date: None, status: None, complete: None }
}

/// How one `key,value` pair lands in a partial Order. A `shipDate` value
/// must be a text the date-time parser accepts.
pub open spec fn order_step(acc: OrderView, k: Seq<char>, v: Seq<char>) -> Result<
    OrderView,
    DecodeError,
> {
    if k == "id"@ {
        match parse_i64_spec(v) {
            Some(n) => Ok(OrderView { id: Some(n), ..acc }),
            None => Err(DecodeError::InvalidValue),
        }
    } else if k == "petId"@ {
        match parse_i64_spec(v) {
            Some(n) => Ok(OrderView { pet_id: Some(n), ..acc }),
            None => Err(DecodeError::InvalidValue),
        }
    } else if k == "quantity"@ {
        match parse_i32_spec(v) {
            Some(n) => Ok(OrderView { quantity: Some(n), ..acc }),
            None => Err(DecodeError::InvalidValue),
        }
    } else if k == "shipDate"@ {
        if datetime_ok(v) {
            Ok(OrderView { ship_date: Some(v), ..acc })
        } else {
            Err(DecodeError::InvalidValue)
        }
    } else if k == "status"@ {
        Ok(OrderView { status: Some(v), ..acc })
    } else if k == "complete"@ {
        match parse_bool_spec(v) {
            Some(b) => Ok(OrderView { complete: Some(b), ..acc }),
            None => Err(DecodeError::InvalidValue),
        }
    } else {
        Err(DecodeError::UnexpectedKey)
    }
}

pub open spec fn order_step_fn() -> spec_fn(OrderView, Seq<char>, Seq<char>) -> Result<
    OrderView,
    DecodeError,
> {
    |a: OrderView, k: Seq<char>, v: Seq<char>| order_step(a, k, v)
}

pub open spec fn decode_flat_order_spec(s: Seq<char>) -> Result<OrderView, DecodeError> {
    decode_pairs(split_commas(s), order_empty(), order_step_fn())
}

/// The `key,value` token run of an Order, one pair per present field.
pub open spec fn order_segs(v: OrderView) -> Seq<Seq<char>> {
    (match v.id {
        Some(n) => seq!["id"@, i64_dec(n as int)],
        None => seq![],
    }) + (match v.pet_id {
        Some(n) => seq!["petId"@, i64_dec(n as int)],
        None => seq![],
    }) + (match v.quantity {
        Some(n) => seq!["quantity"@, i64_dec(n as int)],
        None => seq![],
    }) + (match v.ship_date {
        Some(s) => seq!["shipDate"@, s],
        None => seq![],
    }) + (match v.status {
        Some(s) => seq!["status"@, s],
        None => seq![],
    }) + (match v.complete {
        Some(b) => seq!["complete"@, bool_str(b)],
        None => seq![],
    })
}

pub open spec fn encode_flat_order_spec(v: OrderView) -> Seq<char> {
    join_commas(order_segs(v))
}

impl Order {
    /// The flattened form of this value.
    pub fn encode_flat(&self) -> (r: String)
        ensures
            r@ == encode_flat_order_spec(self@),
    {
        let ghost vw = self@;
        let mut segs: Vec<String> = Vec::new();
        proof {
            assert(segs@.map_values(|t: String| t@) =~= Seq::<Seq<char>>::empty());
        }
        if let Some(n) = self.id {
            push_pair(&mut segs, "id", i64_to_string(n));
        }
        let ghost p1 = (match vw.id {
            Some(n) => seq!["id"@, i64_dec(n as int)],
            None => seq![],
        });
        proof {
            assert(segs@.map_values(|t: String| t@) =~= p1);
        }
        if let Some(n) = self.pet_id {
            push_pair(&mut segs, "petId", i64_to_string(n));
        }
        let ghost p2 = p1 + (match vw.pet_id {
            Some(n) => seq!["petId"@, i64_dec(n as int)],
            None => seq![],
        });
        proof {
            assert(segs@.map_values(|t: String| t@) =~= p2);
        }
        if let Some(n) = self.quantity {
            push_pair(&mut segs, "quantity", i32_to_string(n));
        }
        let ghost p3 = p2 + (match vw.quantity {
            Some(n) => seq!["quantity"@, i64_dec(n as int)],
            None => seq![],
        });
        proof {
            assert(segs@.map_values(|t: String| t@) =~= p3);
        }
        if let Some(d) = &self.ship_date {
            push_pair(&mut segs, "shipDate", String::from_str(d.as_str()));
        }
        let ghost p4 = p3 + (match vw.ship_date {
            Some(s) => seq!["shipDate"@, s],
            None => seq![],
        });
        proof {
            assert(segs@.map_values(|t: String| t@) =~= p4);
        }
        if let Some(s) = &self.status {
            push_pair(&mut segs, "status", s.clone());
        }
        let ghost p5 = p4 + (match vw.status {
            Some(s) => seq!["status"@, s],
            None => seq![],
        });
        proof {
            assert(segs@.map_values(|t: String| t@) =~= p5);
        }
        if let Some(b) = self.complete {
            push_pair(&mut segs, "complete", bool_to_string(b));
        }
        let ghost p6 = p5 + (match vw.complete {
            Some(b) => seq!["complete"@, bool_str(b)],
            None => seq![],
        });
        proof {
            assert(segs@.map_values(|t: String| t@) =~= p6);
            assert(p6 =~= order_segs(vw));
        }
        join_commas_exec(&segs)
    }

    /// Reads an Order back from its flattened form.
    pub fn decode_flat(s: &str) -> (r: Result<Order, DecodeError>)
        ensures
            res_view(r) == decode_flat_order_spec(s@),
    {
        let toks = split_commas_exec(s);
        let ghost all = toks@.map_values(|t: String| t@);
        let ghost stepf = order_step_fn();
        let mut id: Option<i64> = None;
        let mut pet_id: Option<i64> = None;
        let mut quantity: Option<i32> = None;
        let mut ship_date: Option<UtcDateTime> = None;
        let mut status: Option<String> = None;
        let mut complete: Option<bool> = None;
        let mut i: usize = 0;
        proof {
            assert(all.skip(0) =~= all);
        }
        loop
            invariant
                i <= toks.len(),
                all == toks@.map_values(|t: String| t@),
                stepf == order_step_fn(),
                decode_pairs(
                    all.skip(i as int),
                    OrderView {
                        id: id,
                        pet_id: pet_id,
                        quantity: quantity,
                        ship_date: opt_view(ship_date),
                        status: opt_view(status),
                        complete: complete,
                    },
                    stepf,
                ) == decode_flat_order_spec(s@),
            ensures
                i >= toks.len(),
            decreases toks.len() - i,
        {
            let ghost acc = OrderView {
                id: id,
                pet_id: pet_id,
                quantity: quantity,
                ship_date: opt_view(ship_date),
                status: opt_view(status),
                complete: complete,
            };
            if i >= toks.len() {
                proof {
                    assert(all.skip(i as int) =~= Seq::<Seq<char>>::empty());
                    assert(decode_pairs(all.skip(i as int), acc, stepf) == Ok::<
                        OrderView,
                        DecodeError,
                    >(acc));
                }
                break ;
            }
            if i + 1 >= toks.len() {
                proof {
                    assert(all.skip(i as int).len() == 1);
                }
                return Err(DecodeError::MissingValue);
            }
            proof {
                assert(all[i as int] == toks@[i as int]@);
                assert(all[i as int + 1] == toks@[i as int + 1]@);
                assert(all.skip(i as int)[0] == all[i as int]);
                assert(all.skip(i as int)[1] == all[i as int + 1]);
                assert(all.skip(i as int).skip(2) =~= all.skip(i as int + 2));
                assert(stepf(acc, all[i as int], all[i as int + 1]) == order_step(
                    acc,
                    all[i as int],
                    all[i as int + 1],
                ));
            }
            let k = &toks[i];
            let v = &toks[i + 1];
            if is_kw(k, "id") {
                match parse_i64(v.as_str()) {
                    Some(n) => {
                        id = Some(n);
                    },
                    None => {
                        return Err(DecodeError::InvalidValue);
                    },
                }
            } else if is_kw(k, "petId") {
                match parse_i64(v.as_str()) {
                    Some(n) => {
                        pet_id = Some(n);
                    },
                    None => {
                        return Err(DecodeError::InvalidValue);
                    },
                }
            } else if is_kw(k, "quantity") {
                match parse_i32(v.as_str()) {
                    Some(n) => {
                        quantity = Some(n);
                    },
                    None => {
                        return Err(DecodeError::InvalidValue);
                    },
                }
            } else if is_kw(k, "shipDate") {
                match UtcDateTime::parse(v.as_str()) {
                    Some(d) => {
                        ship_date = Some(d);
                    },
                    None => {
                        return Err(DecodeError::InvalidValue);
                    },
                }
            } else if is_kw(k, "status") {
                status = Some(v.clone());
            } else if is_kw(k, "complete") {
                match parse_bool(v.as_str()) {
                    Some(b) => {
                        complete = Some(b);
                    },
                    None => {
                        return Err(DecodeError::InvalidValue);
                    },
                }
            } else {
                return Err(DecodeError::UnexpectedKey);
            }
            i += 2;
        }
        proof {
            let acc = OrderView {
                id: id,
                pet_id: pet_id,
                quantity: quantity,
                ship_date: opt_view(ship_date),
                status: opt_view(status),
                complete: complete,
            };
            assert(all.skip(i as int) =~= Seq::<Seq<char>>::empty());
            assert(decode_pairs(all.skip(i as int), acc, stepf) == Ok::<OrderView, DecodeError>(
                acc,
            ));
        }
        Ok(Order { id, pet_id, quantity, ship_date, status, complete })
    }
}

/// Appends one `key,value` token pair to a segment list.
fn push_pair(segs: &mut Vec<String>, k: &str, v: String)
    ensures
        final(segs)@.map_values(|t: String| t@) == old(segs)@.map_values(|t: String| t@) + seq![
            k@,
            v@,
        ],
{
    let ghost pre = segs@.map_values(|t: String| t@);
    segs.push(String::from_str(k));
    segs.push(v);
    proof {
        assert(segs@.map_values(|t: String| t@) =~= pre + seq![k@, v@]);
    }
}

pub open spec fn user_empty() -> UserView {
    UserView {
        id: None,
        username: None,
        first_name: None,
        last_name: None,
        email: None,
        password: None,
        phone: None,
        user_status: None,
    }
}

/// How one `key,value` pair lands in a partial User.
pub open spec fn user_step(acc: UserView, k: Seq<char>, v: Seq<char>) -> Result<
    UserView,
    DecodeError,
> {
    if k == "id"@ {
        match parse_i64_spec(v) {
            Some(n) => Ok(UserView { id: Some(n), ..acc }),
            None => Err(DecodeError::InvalidValue),
        }
    } else if k == "username"@ {
        Ok(UserView { username: Some(v), ..acc })
    } else if k == "firstName"@ {
        Ok(UserView { first_name: Some(v), ..acc })
    } else if k == "lastName"@ {
        Ok(UserView { last_name: Some(v), ..acc })
    } else if k == "email"@ {
        Ok(UserView { email: Some(v), ..acc })
    } else if k == "password"@ {
        Ok(UserView { password: Some(v), ..acc })
    } else if k == "phone"@ {
        Ok(UserView { phone: Some(v), ..acc })
    } else if k == "userStatus"@ {
        match parse_i32_spec(v) {
            Some(n) => Ok(UserView { user_status: Some(n), ..acc }),
            None => Err(DecodeError::InvalidValue),
        }
    } else {
        Err(DecodeError::UnexpectedKey)
    }
}

pub open spec fn user_step_fn() -> spec_fn(UserView, Seq<char>, Seq<char>) -> Result<
    UserView,
    DecodeError,
> {
    |a: UserView, k: Seq<char>, v: Seq<char>| user_step(a, k, v)
}

pub open spec fn decode_flat_user_spec(s: Seq<char>) -> Result<UserView, DecodeError> {
    decode_pairs(split_commas(s), user_empty(), user_step_fn())
}

/// The `key,value` token run of a User, one pair per present field.
pub open spec fn user_segs(v: UserView) -> Seq<Seq<char>> {
    (match v.id {
        Some(n) => seq!["id"@, i64_dec(n as int)],
        None => seq![],
    }) + (match v.username {
        Some(s) => seq!["username"@, s],
        None => seq![],
    }) + (match v.first_name {
        Some(s) => seq!["firstName"@, s],
        None => seq![],
    }) + (match v.last_name {
        Some(s) => seq!["lastName"@, s],
        None => seq![],
    }) + (match v.email {
        Some(s) => seq!["email"@, s],
        None => seq![],
    }) + (match v.password {
        Some(s) => seq!["password"@, s],
        None => seq![],
    }) + (match v.phone {
        Some(s) => seq!["phone"@, s],
        None => seq![],
    }) + (match v.user_status {
        Some(n) => seq!["userStatus"@, i64_dec(n as int)],
        None => seq![],
    })
}

pub open spec fn encode_flat_user_spec(v: UserView) -> Seq<char> {
    join_commas(user_segs(v))
}

impl User {
    /// The flattened form of this value.
    pub fn encode_flat(&self) -> (r: String)
        ensures
            r@ == encode_flat_user_spec(self@),
    {
        let ghost vw = self@;
        let mut segs: Vec<String> = Vec::new();
        proof {
            assert(segs@.map_values(|t: String| t@) =~= Seq::<Seq<char>>::empty());
        }
        if let Some(n) = self.id {
            push_pair(&mut segs, "id", i64_to_string(n));
        }
        let ghost p1 = (match vw.id {
            Some(n) => seq!["id"@, i64_dec(n as int)],
            None => seq![],
        });
        proof {
            assert(segs@.map_values(|t: String| t@) =~= p1);
        }
        if let Some(s) = &self.username {
            push_pair(&mut segs, "username", s.clone());
        }
        let ghost p2 = p1 + (match vw.username {
            Some(s) => seq!["username"@, s],
            None => seq![],
        });
        proof {
            assert(segs@.map_values(|t: String| t@) =~= p2);
        }
        if let Some(s) = &self.first_name {
            push_pair(&mut segs, "firstName", s.clone());
        }
        let ghost p3 = p2 + (match vw.first_name {
            Some(s) => seq!["firstName"@, s],
            None => seq![],
        });
        proof {
            assert(segs@.map_values(|t: String| t@) =~= p3);
        }
        if let Some(s) = &self.last_name {
            push_pair(&mut segs, "lastName", s.clone());
        }
        let ghost p4 = p3 + (match vw.last_name {
            Some(s) => seq!["lastName"@, s],
            None => seq![],
        });
        proof {
            assert(segs@.map_values(|t: String| t@) =~= p4);
        }
        if let Some(s) = &self.email {
            push_pair(&mut segs, "email", s.clone());
        }
        let ghost p5 = p4 + (match vw.email {
            Some(s) => seq!["email"@, s],
            None => seq![],
        });
        proof {
            assert(segs@.map_values(|t: String| t@) =~= p5);
        }
        if let Some(s) = &self.password {
            push_pair(&mut segs, "password", s.clone());
        }
        let ghost p6 = p5 + (match vw.password {
            Some(s) => seq!["password"@, s],
            None => seq![],
        });
        proof {
            assert(segs@.map_values(|t: String| t@) =~= p6);
        }
        if let Some(s) = &self.phone {
            push_pair(&mut segs, "phone", s.clone());
        }
        let ghost p7 = p6 + (match vw.phone {
            Some(s) => seq!["phone"@, s],
            None => seq![],
        });
        proof {
            assert(segs@.map_values(|t: String| t@) =~= p7);
        }
        if let Some(n) = self.user_status {
            push_pair(&mut segs, "userStatus", i32_to_string(n));
        }
        let ghost p8 = p7 + (match vw.user_status {
            Some(n) => seq!["userStatus"@, i64_dec(n as int)],
            None => seq![],
        });
        proof {
            assert(segs@.map_values(|t: String| t@) =~= p8);
            assert(p8 =~= user_segs(vw));
        }
        join_commas_exec(&segs)
    }

    /// Reads a User back from its flattened form.
    pub fn decode_flat(s: &str) -> (r: Result<User, DecodeError>)
        ensures
            res_view(r) == decode_flat_user_spec(s@),
    {
        let toks = split_commas_exec(s);
        let ghost all = toks@.map_values(|t: String| t@);
        let ghost stepf = user_step_fn();
        let mut id: Option<i64> = None;
        let mut username: Option<String> = None;
        let mut first_name: Option<String> = None;
        let mut last_name: Option<String> = None;
        let mut email: Option<String> = None;
        let mut password: Option<String> = None;
        let mut phone: Option<String> = None;
        let mut user_status: Option<i32> = None;
        let mut i: usize = 0;
        proof {
            assert(all.skip(0) =~= all);
        }
        loop
            invariant
                i <= toks.len(),
                all == toks@.map_values(|t: String| t@),
                stepf == user_step_fn(),
                decode_pairs(
                    all.skip(i as int),
                    UserView {
                        id: id,
                        username: opt_view(username),
                        first_name: opt_view(first_name),
                        last_name: opt_view(last_name),
                        email: opt_view(email),
                        password: opt_view(password),
                        phone: opt_view(phone),
                        user_status: user_status,
                    },
                    stepf,
                ) == decode_flat_user_spec(s@),
            ensures
                i >= toks.len(),
            decreases toks.len() - i,
        {
            let ghost acc = UserView {
                id: id,
                username: opt_view(username),
                first_name: opt_view(first_name),
                last_name: opt_view(last_name),
                email: opt_view(email),
                password: opt_view(password),
                phone: opt_view(phone),
                user_status: user_status,
            };
            if i >= toks.len() {
                proof {
                    assert(all.skip(i as int) =~= Seq::<Seq<char>>::empty());
                    assert(decode_pairs(all.skip(i as int), acc, stepf) == Ok::<
                        UserView,
                        DecodeError,
                    >(acc));
                }
                break ;
            }
            if i + 1 >= toks.len() {
                proof {
                    assert(all.skip(i as int).len() == 1);
                }
                return Err(DecodeError::MissingValue);
            }
            proof {
                assert(all[i as int] == toks@[i as int]@);
                assert(all[i as int + 1] == toks@[i as int + 1]@);
                assert(all.skip(i as int)[0] == all[i as int]);
                assert(all.skip(i as int)[1] == all[i as int + 1]);
                assert(all.skip(i as int).skip(2) =~= all.skip(i as int + 2));
                assert(stepf(acc, all[i as int], all[i as int + 1]) == user_step(
                    acc,
                    all[i as int],
                    all[i as int + 1],
                ));
            }
            let k = &toks[i];
            let v = &toks[i + 1];
            if is_kw(k, "id") {
                match parse_i64(v.as_str()) {
                    Some(n) => {
                        id = Some(n);
                    },
                    None => {
                        return Err(DecodeError::InvalidValue);
                    },
                }
            } else if is_kw(k, "username") {
                username = Some(v.clone());
            } else if is_kw(k, "firstName") {
                first_name = Some(v.clone());
            } else if is_kw(k, "lastName") {
                last_name = Some(v.clone());
            } else if is_kw(k, "email") {
                email = Some(v.clone());
            } else if is_kw(k, "password") {
                password = Some(v.clone());
            } else if is_kw(k, "phone") {
                phone = Some(v.clone());
            } else if is_kw(k, "userStatus") {
                match parse_i32(v.as_str()) {
                    Some(n) => {
                        user_status = Some(n);
                    },
                    None => {
                        return Err(DecodeError::InvalidValue);
                    },
                }
            } else {
                return Err(DecodeError::UnexpectedKey);
            }
            i += 2;
        }
        proof {
            let acc = UserView {
                id: id,
                username: opt_view(username),
                first_name: opt_view(first_name),
                last_name: opt_view(last_name),
                email: opt_view(email),
                password: opt_view(password),
                phone: opt_view(phone),
                user_status: user_status,
            };
            assert(all.skip(i as int) =~= Seq::<Seq<char>>::empty());
            assert(decode_pairs(all.skip(i as int), acc, stepf) == Ok::<UserView, DecodeError>(
                acc,
            ));
        }
        Ok(User { id, username, first_name, last_name, email, password, phone, user_status })
    }
}

/// Partial Pet while its flattened form is read: what each key has set so
/// far. The two required fields may still be missing here.
pub struct PetAcc {
    pub id: Option<i64>,
    pub name: Option<Seq<char>>,
    pub category: Option<CategoryView>,
    pub photo_urls: Option<Seq<Seq<char>>>,
    pub tags: Option<Seq<TagView>>,
    pub status: Option<Seq<char>>,
}

pub open spec fn pet_acc_empty() -> PetAcc {
    PetAcc { id: None, name: None, category: None, photo_urls: None, tags: None, status: None }
}

/// How one `key,value` pair lands in a partial Pet. A `category` value is
/// read as a nested flattened Category; the `photoUrls` and `tags`
/// collections cannot be read from this form.
pub open spec fn pet_step(acc: PetAcc, k: Seq<char>, v: Seq<char>) -> Result<PetAcc, DecodeError> {
    if k == "id"@ {
        match parse_i64_spec(v) {
            Some(n) => Ok(PetAcc { id: Some(n), ..acc }),
            None => Err(DecodeError::InvalidValue),
        }
    } else if k == "name"@ {
        Ok(PetAcc { name: Some(v), ..acc })
    } else if k == "category"@ {
        match decode_flat_category_spec(v) {
            Ok(c) => Ok(PetAcc { category: Some(c), ..acc }),
            Err(e) => Err(e),
        }
    } else if k == "photoUrls"@ {
        Err(DecodeError::UnsupportedContainer)
    } else if k == "tags"@ {
        Err(DecodeError::UnsupportedContainer)
    } else if k == "status"@ {
        Ok(PetAcc { status: Some(v), ..acc })
    } else {
        Err(DecodeError::UnexpectedKey)
    }
}

pub open spec fn pet_step_fn() -> spec_fn(PetAcc, Seq<char>, Seq<char>) -> Result<
    PetAcc,
    DecodeError,
> {
    |a: PetAcc, k: Seq<char>, v: Seq<char>| pet_step(a, k, v)
}

/// The finished Pet, if both required fields were read.
pub open spec fn pet_build(acc: PetAcc) -> Result<PetView, DecodeError> {
    match acc.name {
        None => Err(DecodeError::MissingRequiredField),
        Some(n) => match acc.photo_urls {
            None => Err(DecodeError::MissingRequiredField),
            Some(p) => Ok(
                PetView {
                    id: acc.id,
                    name: n,
                    category: acc.category,
                    photo_urls: p,
                    tags: acc.tags,
                    status: acc.status,
                },
            ),
        },
    }
}

pub open spec fn decode_flat_pet_spec(s: Seq<char>) -> Result<PetView, DecodeError> {
    match decode_pairs(split_commas(s), pet_acc_empty(), pet_step_fn()) {
        Ok(a) => pet_build(a),
        Err(e) => Err(e),
    }
}

/// The `key,value` token run of a Pet: one pair per present scalar field,
/// the photo list joined into one value, the `category` and `tags` model
/// collections skipped.
pub open spec fn pet_segs(v: PetView) -> Seq<Seq<char>> {
    (match v.id {
        Some(n) => seq!["id"@, i64_dec(n as int)],
        None => seq![],
    }) + seq!["name"@, v.name] + seq!["photoUrls"@, join_commas(v.photo_urls)] + (match v.status {
        Some(s) => seq!["status"@, s],
        None => seq![],
    })
}

pub open spec fn encode_flat_pet_spec(v: PetView) -> Seq<char> {
    join_commas(pet_segs(v))
}

impl Pet {
    /// The flattened form of this value. The `category` and `tags` model
    /// collections are skipped: the flattened form cannot carry them.
    pub fn encode_flat(&self) -> (r: String)
        ensures
            r@ == encode_flat_pet_spec(self@),
    {
        let ghost vw = self@;
        let mut segs: Vec<String> = Vec::new();
        proof {
            assert(segs@.map_values(|t: String| t@) =~= Seq::<Seq<char>>::empty());
        }
        if let Some(n) = self.id {
            push_pair(&mut segs, "id", i64_to_string(n));
        }
        let ghost p1 = (match vw.id {
            Some(n) => seq!["id"@, i64_dec(n as int)],
            None => seq![],
        });
        proof {
            assert(segs@.map_values(|t: String| t@) =~= p1);
        }
        push_pair(&mut segs, "name", self.name.clone());
        push_pair(&mut segs, "photoUrls", join_commas_exec(&self.photo_urls));
        let ghost p2 = p1 + seq!["name"@, vw.name] + seq!["photoUrls"@, join_commas(vw.photo_urls)];
        proof {
            assert(segs@.map_values(|t: String| t@) =~= p2);
        }
        if let Some(s) = &self.status {
            push_pair(&mut segs, "status", s.clone());
        }
        proof {
            assert(segs@.map_values(|t: String| t@) =~= pet_segs(vw));
        }
        join_commas_exec(&segs)
    }

    /// Reads a Pet back from its flattened form. The `photoUrls` field is
    /// required and cannot be read from this form, so no flattened line
    /// yields a Pet; every outcome is one of the decode errors.
    pub fn decode_flat(s: &str) -> (r: Result<Pet, DecodeError>)
        ensures
            res_view(r) == decode_flat_pet_spec(s@),
    {
        let toks = split_commas_exec(s);
        let ghost all = toks@.map_values(|t: String| t@);
        let ghost stepf = pet_step_fn();
        let mut id: Option<i64> = None;
        let mut name: Option<String> = None;
        let mut category: Option<Category> = None;
        let mut status: Option<String> = None;
        let mut i: usize = 0;
        proof {
            assert(all.skip(0) =~= all);
        }
        loop
            invariant
                i <= toks.len(),
                all == toks@.map_values(|t: String| t@),
                stepf == pet_step_fn(),
                decode_pairs(
                    all.skip(i as int),
                    PetAcc {
                        id: id,
                        name: opt_view(name),
                        category: opt_view(category),
                        photo_urls: None,
                        tags: None,
                        status: opt_view(status),
                    },
                    stepf,
                ) == decode_pairs(split_commas(s@), pet_acc_empty(), pet_step_fn()),
            ensures
                i >= toks.len(),
            decreases toks.len() - i,
        {
            let ghost acc = PetAcc {
                id: id,
                name: opt_view(name),
                category: opt_view(category),
                photo_urls: None,
                tags: None,
                status: opt_view(status),
            };
            if i >= toks.len() {
                proof {
                    assert(all.skip(i as int) =~= Seq::<Seq<char>>::empty());
                    assert(decode_pairs(all.skip(i as int), acc, stepf) == Ok::<
                        PetAcc,
                        DecodeError,
                    >(acc));
                }
                break ;
            }
            if i + 1 >= toks.len() {
                proof {
                    assert(all.skip(i as int).len() == 1);
                }
                return Err(DecodeError::MissingValue);
            }
            proof {
                assert(all[i as int] == toks@[i as int]@);
                assert(all[i as int + 1] == toks@[i as int + 1]@);
                assert(all.skip(i as int)[0] == all[i as int]);
                assert(all.skip(i as int)[1] == all[i as int + 1]);
                assert(all.skip(i as int).skip(2) =~= all.skip(i as int + 2));
                assert(stepf(acc, all[i as int], all[i as int + 1]) == pet_step(
                    acc,
                    all[i as int],
                    all[i as int + 1],
                ));
            }
            let k = &toks[i];
            let v = &toks[i + 1];
            if is_kw(k, "id") {
                match parse_i64(v.as_str()) {
                    Some(n) => {
                        id = Some(n);
                    },
                    None => {
                        return Err(DecodeError::InvalidValue);
                    },
                }
            } else if is_kw(k, "name") {
                name = Some(v.clone());
            } else if is_kw(k, "category") {
                match Category::decode_flat(v.as_str()) {
                    Ok(c) => {
                        category = Some(c);
                    },
                    Err(e) => {
                        return Err(e);
                    },
                }
            } else if is_kw(k, "photoUrls") {
                return Err(DecodeError::UnsupportedContainer);
            } else if is_kw(k, "tags") {
                return Err(DecodeError::UnsupportedContainer);
            } else if is_kw(k, "status") {
                status = Some(v.clone());
            } else {
                return Err(DecodeError::UnexpectedKey);
            }
            i += 2;
        }
        proof {
            let acc = PetAcc {
                id: id,
                name: opt_view(name),
                category: opt_view(category),
                photo_urls: None,
                tags: None,
                status: opt_view(status),
            };
            assert(all.skip(i as int) =~= Seq::<Seq<char>>::empty());
            assert(decode_pairs(all.skip(i as int), acc, stepf) == Ok::<PetAcc, DecodeError>(acc));
        }
        if name.is_none() {
            return Err(DecodeError::MissingRequiredField);
        }
        // The required photoUrls list was never read: it cannot travel in
        // this form.
        Err(DecodeError::MissingRequiredField)
    }
}

} // verus!
