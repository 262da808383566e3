//! Laws of the flattened wire form.
//!
//! For every model type: a value whose populated fields can travel in the
//! flattened form comes back unchanged from its own encoding; a key outside
//! the type's field set fails the decode with `UnexpectedKey` wherever it
//! stands; and a form that omits a required field fails with
//! `MissingRequiredField`.

use vstd::prelude::*;

use crate::datetime::datetime_ok;
use crate::error::DecodeError;
use crate::flat::{
    address_empty, address_segs, address_step_fn, api_response_empty, api_response_segs,
    api_response_step_fn, category_empty, category_segs, category_step_fn, customer_empty,
    customer_segs, customer_step_fn, decode_flat_address_spec, decode_flat_api_response_spec,
    decode_flat_category_spec, decode_flat_customer_spec, decode_flat_order_spec,
    decode_flat_pet_spec, decode_flat_tag_spec, decode_flat_user_spec, decode_pairs,
    encode_flat_address_spec, encode_flat_api_response_spec, encode_flat_category_spec,
    encode_flat_customer_spec, encode_flat_order_spec, encode_flat_tag_spec,
    encode_flat_user_spec, lemma_decode_pairs_append, order_empty, order_segs, order_step_fn,
    pet_acc_empty, pet_build, pet_step_fn, tag_empty, tag_segs, tag_step_fn, user_empty,
    user_segs, user_step_fn, PetAcc,
};
use crate::models::{
    AddressView, ApiResponseView, CategoryView, CustomerView, OrderView, TagView, UserView,
};
use crate::nums::{i64_dec, lemma_bool_str_no_comma, lemma_i64_dec_no_comma, lemma_parse_i64_dec};
use crate::strutil::{join_commas, lemma_split_join, no_comma, split_commas};

verus! {

/// Every token in the run is comma-free, so the run survives joining.
pub open spec fn all_no_comma(ss: Seq<Seq<char>>) -> bool {
    forall|i: int| 0 <= i < ss.len() ==> no_comma(#[trigger] ss[i])
}

pub proof fn lemma_all_no_comma_concat(a: Seq<Seq<char>>, b: Seq<Seq<char>>)
    requires
        all_no_comma(a),
        all_no_comma(b),
    ensures
        all_no_comma(a + b),
{
    assert forall|i: int| 0 <= i < (a + b).len() implies no_comma((a + b)[i]) by {
        if i < a.len() {
            assert((a + b)[i] == a[i]);
        } else {
            assert((a + b)[i] == b[i - a.len()]);
        }
    }
}

/// Decoding a single pair is one application of the step.
pub proof fn lemma_decode_one_pair<A>(
    k: Seq<char>,
    v: Seq<char>,
    acc: A,
    stepf: spec_fn(A, Seq<char>, Seq<char>) -> Result<A, DecodeError>,
)
    ensures
        decode_pairs(seq![k, v], acc, stepf) == stepf(acc, k, v),
{
    let p = seq![k, v];
    assert(p.len() == 2);
    assert(p[0] == k);
    assert(p[1] == v);
    assert(p.skip(2) =~= Seq::<Seq<char>>::empty());
    match stepf(acc, k, v) {
        Ok(m) => {
            assert(decode_pairs(p.skip(2), m, stepf) == Ok::<A, DecodeError>(m));
        },
        Err(e) => {},
    }
}

/// Appending one accepted pair to an accepted run steps the state once.
pub proof fn lemma_decode_pairs_snoc<A>(
    a: Seq<Seq<char>>,
    k: Seq<char>,
    v: Seq<char>,
    acc: A,
    m: A,
    stepf: spec_fn(A, Seq<char>, Seq<char>) -> Result<A, DecodeError>,
)
    requires
        a.len() % 2 == 0,
        decode_pairs(a, acc, stepf) == Ok::<A, DecodeError>(m),
    ensures
        decode_pairs(a + seq![k, v], acc, stepf) == stepf(m, k, v),
{
    lemma_decode_pairs_append(a, seq![k, v], acc, stepf);
    lemma_decode_one_pair(k, v, m, stepf);
}

/// A value of Category whose populated fields carry no delimiter comes back
/// unchanged from its flattened encoding.
pub proof fn lemma_flat_round_trip_category(v: CategoryView)
    requires
        v.id is Some || v.name is Some,
        v.name matches Some(s) ==> no_comma(s),
    ensures
        decode_flat_category_spec(encode_flat_category_spec(v)) == Ok::<CategoryView, DecodeError>(
            v,
        ),
{
    reveal_strlit("id");
    reveal_strlit("name");
    assert(no_comma("id"@));
    assert(no_comma("name"@));
    let stepf = category_step_fn();
    let s_id: Seq<Seq<char>> = match v.id {
        Some(n) => seq!["id"@, i64_dec(n as int)],
        None => seq![],
    };
    let s_name: Seq<Seq<char>> = match v.name {
        Some(s) => seq!["name"@, s],
        None => seq![],
    };
    let segs = category_segs(v);
    assert(segs == s_id + s_name);
    let acc0 = category_empty();
    let acc1 = CategoryView { id: v.id, name: None };
    let acc2 = CategoryView { id: v.id, name: v.name };
    // the id run lands in acc1
    if let Some(n) = v.id {
        lemma_parse_i64_dec(n);
        lemma_i64_dec_no_comma(n as int);
        lemma_decode_one_pair("id"@, i64_dec(n as int), acc0, stepf);
        assert(all_no_comma(s_id));
        assert(decode_pairs(s_id, acc0, stepf) == Ok::<CategoryView, DecodeError>(acc1));
    } else {
        assert(all_no_comma(s_id));
        assert(decode_pairs(s_id, acc0, stepf) == Ok::<CategoryView, DecodeError>(acc1));
    }
    // the name run extends it to acc2
    if let Some(s) = v.name {
        assert(all_no_comma(s_name));
        lemma_decode_pairs_snoc(s_id, "name"@, s, acc0, acc1, stepf);
        assert("name"@ != "id"@);
        assert(decode_pairs(segs, acc0, stepf) == Ok::<CategoryView, DecodeError>(acc2));
    } else {
        assert(segs =~= s_id);
        assert(decode_pairs(segs, acc0, stepf) == Ok::<CategoryView, DecodeError>(acc2));
    }
    lemma_all_no_comma_concat(s_id, s_name);
    assert(segs.len() >= 1);
    lemma_split_join(segs);
    assert(acc2 == v);
}

/// A key outside Category's field set fails the decode with
/// `UnexpectedKey`, wherever in the form it stands.
pub proof fn lemma_unknown_key_category(
    pre: Seq<Seq<char>>,
    k: Seq<char>,
    v: Seq<char>,
    post: Seq<Seq<char>>,
)
    requires
        pre.len() % 2 == 0,
        all_no_comma(pre),
        no_comma(k),
        no_comma(v),
        all_no_comma(post),
        decode_pairs(pre, category_empty(), category_step_fn()) is Ok,
        k != "id"@,
        k != "name"@,
    ensures
        decode_flat_category_spec(join_commas(pre + seq![k, v] + post)) == Err::<
            CategoryView,
            DecodeError,
        >(DecodeError::UnexpectedKey),
{
    let stepf = category_step_fn();
    let whole = pre + seq![k, v] + post;
    assert(all_no_comma(seq![k, v]));
    lemma_all_no_comma_concat(pre, seq![k, v]);
    lemma_all_no_comma_concat(pre + seq![k, v], post);
    assert(whole.len() >= 2);
    lemma_split_join(whole);
    assert(whole =~= pre + (seq![k, v] + post));
    lemma_decode_pairs_append(pre, seq![k, v] + post, category_empty(), stepf);
    let rest = seq![k, v] + post;
    assert(rest[0] == k);
    assert(rest[1] == v);
    if let Ok(m) = decode_pairs(pre, category_empty(), stepf) {
        assert(stepf(m, k, v) == Err::<CategoryView, DecodeError>(DecodeError::UnexpectedKey));
        assert(decode_pairs(rest, m, stepf) == Err::<CategoryView, DecodeError>(
            DecodeError::UnexpectedKey,
        ));
    }
}

/// A value of Tag whose populated fields carry no delimiter comes back
/// unchanged from its flattened encoding.
pub proof fn lemma_flat_round_trip_tag(v: TagView)
    requires
        v.id is Some || v.name is Some,
        v.name matches Some(s) ==> no_comma(s),
    ensures
        decode_flat_tag_spec(encode_flat_tag_spec(v)) == Ok::<TagView, DecodeError>(v),
{
    reveal_strlit("id");
    reveal_strlit("name");
    assert(no_comma("id"@));
    assert(no_comma("name"@));
    let stepf = tag_step_fn();
    let s_id: Seq<Seq<char>> = match v.id {
        Some(n) => seq!["id"@, i64_dec(n as int)],
        None => seq![],
    };
    let s_name: Seq<Seq<char>> = match v.name {
        Some(s) => seq!["name"@, s],
        None => seq![],
    };
    let segs = tag_segs(v);
    assert(segs == s_id + s_name);
    let acc0 = tag_empty();
    let acc1 = TagView { id: v.id, name: None };
    let acc2 = TagView { id: v.id, name: v.name };
    if let Some(n) = v.id {
        lemma_parse_i64_dec(n);
        lemma_i64_dec_no_comma(n as int);
        lemma_decode_one_pair("id"@, i64_dec(n as int), acc0, stepf);
        assert(all_no_comma(s_id));
        assert(decode_pairs(s_id, acc0, stepf) == Ok::<TagView, DecodeError>(acc1));
    } else {
        assert(all_no_comma(s_id));
        assert(decode_pairs(s_id, acc0, stepf) == Ok::<TagView, DecodeError>(acc1));
    }
    if let Some(s) = v.name {
        assert(all_no_comma(s_name));
        lemma_decode_pairs_snoc(s_id, "name"@, s, acc0, acc1, stepf);
        assert(decode_pairs(segs, acc0, stepf) == Ok::<TagView, DecodeError>(acc2));
    } else {
        assert(segs =~= s_id);
        assert(decode_pairs(segs, acc0, stepf) == Ok::<TagView, DecodeError>(acc2));
    }
    lemma_all_no_comma_concat(s_id, s_name);
    assert(segs.len() >= 1);
    lemma_split_join(segs);
    assert(acc2 == v);
}

/// A key outside Tag's field set fails the decode with `UnexpectedKey`,
/// wherever in the form it stands.
pub proof fn lemma_unknown_key_tag(
    pre: Seq<Seq<char>>,
    k: Seq<char>,
    v: Seq<char>,
    post: Seq<Seq<char>>,
)
    requires
        pre.len() % 2 == 0,
        all_no_comma(pre),
        no_comma(k),
        no_comma(v),
        all_no_comma(post),
        decode_pairs(pre, tag_empty(), tag_step_fn()) is Ok,
        k != "id"@,
        k != "name"@,
    ensures
        decode_flat_tag_spec(join_commas(pre + seq![k, v] + post)) == Err::<TagView, DecodeError>(
            DecodeError::UnexpectedKey,
        ),
{
    let stepf = tag_step_fn();
    let whole = pre + seq![k, v] + post;
    assert(all_no_comma(seq![k, v]));
    lemma_all_no_comma_concat(pre, seq![k, v]);
    lemma_all_no_comma_concat(pre + seq![k, v], post);
    assert(whole.len() >= 2);
    lemma_split_join(whole);
    assert(whole =~= pre + (seq![k, v] + post));
    lemma_decode_pairs_append(pre, seq![k, v] + post, tag_empty(), stepf);
    let rest = seq![k, v] + post;
    assert(rest[0] == k);
    assert(rest[1] == v);
    if let Ok(m) = decode_pairs(pre, tag_empty(), stepf) {
        assert(stepf(m, k, v) == Err::<TagView, DecodeError>(DecodeError::UnexpectedKey));
        assert(decode_pairs(rest, m, stepf) == Err::<TagView, DecodeError>(
            DecodeError::UnexpectedKey,
        ));
    }
}

/// A value of Address whose populated fields carry no delimiter comes back
/// unchanged from its flattened encoding.
pub proof fn lemma_flat_round_trip_address(v: AddressView)
    requires
        v.street is Some || v.city is Some || v.state is Some || v.zip is Some,
        v.street matches Some(s) ==> no_comma(s),
        v.city matches Some(s) ==> no_comma(s),
        v.state matches Some(s) ==> no_comma(s),
        v.zip matches Some(s) ==> no_comma(s),
    ensures
        decode_flat_address_spec(encode_flat_address_spec(v)) == Ok::<AddressView, DecodeError>(v),
{
    reveal_strlit("street");
    reveal_strlit("city");
    reveal_strlit("state");
    reveal_strlit("zip");
    assert(no_comma("street"@));
    assert(no_comma("city"@));
    assert(no_comma("state"@));
    assert(no_comma("zip"@));
    let stepf = address_step_fn();
    let s1: Seq<Seq<char>> = match v.street {
        Some(s) => seq!["street"@, s],
        None => seq![],
    };
    let s2: Seq<Seq<char>> = match v.city {
        Some(s) => seq!["city"@, s],
        None => seq![],
    };
    let s3: Seq<Seq<char>> = match v.state {
        Some(s) => seq!["state"@, s],
        None => seq![],
    };
    let s4: Seq<Seq<char>> = match v.zip {
        Some(s) => seq!["zip"@, s],
        None => seq![],
    };
    let segs = address_segs(v);
    assert(segs == s1 + s2 + s3 + s4);
    let acc0 = address_empty();
    let acc1 = AddressView { street: v.street, city: None, state: None, zip: None };
    let acc2 = AddressView { street: v.street, city: v.city, state: None, zip: None };
    let acc3 = AddressView { street: v.street, city: v.city, state: v.state, zip: None };
    let acc4 = AddressView { street: v.street, city: v.city, state: v.state, zip: v.zip };
    if let Some(s) = v.street {
        assert(all_no_comma(s1));
        lemma_decode_one_pair("street"@, s, acc0, stepf);
        assert(decode_pairs(s1, acc0, stepf) == Ok::<AddressView, DecodeError>(acc1));
    } else {
        assert(all_no_comma(s1));
        assert(decode_pairs(s1, acc0, stepf) == Ok::<AddressView, DecodeError>(acc1));
    }
    if let Some(s) = v.city {
        assert(all_no_comma(s2));
        lemma_decode_pairs_snoc(s1, "city"@, s, acc0, acc1, stepf);
        assert(decode_pairs(s1 + s2, acc0, stepf) == Ok::<AddressView, DecodeError>(acc2));
    } else {
        assert(s1 + s2 =~= s1);
        assert(decode_pairs(s1 + s2, acc0, stepf) == Ok::<AddressView, DecodeError>(acc2));
    }
    if let Some(s) = v.state {
        assert(all_no_comma(s3));
        lemma_decode_pairs_snoc(s1 + s2, "state"@, s, acc0, acc2, stepf);
        assert(decode_pairs(s1 + s2 + s3, acc0, stepf) == Ok::<AddressView, DecodeError>(acc3));
    } else {
        assert(s1 + s2 + s3 =~= s1 + s2);
        assert(decode_pairs(s1 + s2 + s3, acc0, stepf) == Ok::<AddressView, DecodeError>(acc3));
    }
    if let Some(s) = v.zip {
        assert(all_no_comma(s4));
        lemma_decode_pairs_snoc(s1 + s2 + s3, "zip"@, s, acc0, acc3, stepf);
        assert(decode_pairs(segs, acc0, stepf) == Ok::<AddressView, DecodeError>(acc4));
    } else {
        assert(segs =~= s1 + s2 + s3);
        assert(decode_pairs(segs, acc0, stepf) == Ok::<AddressView, DecodeError>(acc4));
    }
    lemma_all_no_comma_concat(s1, s2);
    lemma_all_no_comma_concat(s1 + s2, s3);
    lemma_all_no_comma_concat(s1 + s2 + s3, s4);
    assert(segs.len() >= 1);
    lemma_split_join(segs);
    assert(acc4 == v);
}

/// A key outside Address's field set fails the decode with
/// `UnexpectedKey`, wherever in the form it stands.
pub proof fn lemma_unknown_key_address(
    pre: Seq<Seq<char>>,
    k: Seq<char>,
    v: Seq<char>,
    post: Seq<Seq<char>>,
)
    requires
        pre.len() % 2 == 0,
        all_no_comma(pre),
        no_comma(k),
        no_comma(v),
        all_no_comma(post),
        decode_pairs(pre, address_empty(), address_step_fn()) is Ok,
        k != "street"@,
        k != "city"@,
        k != "state"@,
        k != "zip"@,
    ensures
        decode_flat_address_spec(join_commas(pre + seq![k, v] + post)) == Err::<
            AddressView,
            DecodeError,
        >(DecodeError::UnexpectedKey),
{
    let stepf = address_step_fn();
    let whole = pre + seq![k, v] + post;
    assert(all_no_comma(seq![k, v]));
    lemma_all_no_comma_concat(pre, seq![k, v]);
    lemma_all_no_comma_concat(pre + seq![k, v], post);
    assert(whole.len() >= 2);
    lemma_split_join(whole);
    assert(whole =~= pre + (seq![k, v] + post));
    lemma_decode_pairs_append(pre, seq![k, v] + post, address_empty(), stepf);
    let rest = seq![k, v] + post;
    assert(rest[0] == k);
    assert(rest[1] == v);
    if let Ok(m) = decode_pairs(pre, address_empty(), stepf) {
        assert(stepf(m, k, v) == Err::<AddressView, DecodeError>(DecodeError::UnexpectedKey));
        assert(decode_pairs(rest, m, stepf) == Err::<AddressView, DecodeError>(
            DecodeError::UnexpectedKey,
        ));
    }
}

/// A value of ApiResponse whose populated fields carry no delimiter comes
/// back unchanged from its flattened encoding.
pub proof fn lemma_flat_round_trip_api_response(v: ApiResponseView)
    requires
        v.code is Some || v.type_ is Some || v.message is Some,
        v.type_ matches Some(s) ==> no_comma(s),
        v.message matches Some(s) ==> no_comma(s),
    ensures
        decode_flat_api_response_spec(encode_flat_api_response_spec(v)) == Ok::<
            ApiResponseView,
            DecodeError,
        >(v),
{
    reveal_strlit("code");
    reveal_strlit("type");
    reveal_strlit("message");
    assert(no_comma("code"@));
    assert(no_comma("type"@));
    assert(no_comma("message"@));
    let stepf = api_response_step_fn();
    let s1: Seq<Seq<char>> = match v.code {
        Some(n) => seq!["code"@, i64_dec(n as int)],
        None => seq![],
    };
    let s2: Seq<Seq<char>> = match v.type_ {
        Some(s) => seq!["type"@, s],
        None => seq![],
    };
    let s3: Seq<Seq<char>> = match v.message {
        Some(s) => seq!["message"@, s],
        None => seq![],
    };
    let segs = api_response_segs(v);
    assert(segs == s1 + s2 + s3);
    let acc0 = api_response_empty();
    let acc1 = ApiResponseView { code: v.code, type_: None, message: None };
    let acc2 = ApiResponseView { code: v.code, type_: v.type_, message: None };
    let acc3 = ApiResponseView { code: v.code, type_: v.type_, message: v.message };
    if let Some(n) = v.code {
        lemma_parse_i64_dec(n as i64);
        lemma_i64_dec_no_comma(n as int);
        assert(all_no_comma(s1));
        lemma_decode_one_pair("code"@, i64_dec(n as int), acc0, stepf);
        assert(decode_pairs(s1, acc0, stepf) == Ok::<ApiResponseView, DecodeError>(acc1));
    } else {
        assert(all_no_comma(s1));
        assert(decode_pairs(s1, acc0, stepf) == Ok::<ApiResponseView, DecodeError>(acc1));
    }
    if let Some(s) = v.type_ {
        assert(all_no_comma(s2));
        lemma_decode_pairs_snoc(s1, "type"@, s, acc0, acc1, stepf);
        assert(decode_pairs(s1 + s2, acc0, stepf) == Ok::<ApiResponseView, DecodeError>(acc2));
    } else {
        assert(s1 + s2 =~= s1);
        assert(decode_pairs(s1 + s2, acc0, stepf) == Ok::<ApiResponseView, DecodeError>(acc2));
    }
    if let Some(s) = v.message {
        assert(all_no_comma(s3));
        lemma_decode_pairs_snoc(s1 + s2, "message"@, s, acc0, acc2, stepf);
        assert(decode_pairs(segs, acc0, stepf) == Ok::<ApiResponseView, DecodeError>(acc3));
    } else {
        assert(segs =~= s1 + s2);
        assert(decode_pairs(segs, acc0, stepf) == Ok::<ApiResponseView, DecodeError>(acc3));
    }
    lemma_all_no_comma_concat(s1, s2);
    lemma_all_no_comma_concat(s1 + s2, s3);
    assert(segs.len() >= 1);
    lemma_split_join(segs);
    assert(acc3 == v);
}

/// A key outside ApiResponse's field set fails the decode with
/// `UnexpectedKey`, wherever in the form it stands.
pub proof fn lemma_unknown_key_api_response(
    pre: Seq<Seq<char>>,
    k: Seq<char>,
    v: Seq<char>,
    post: Seq<Seq<char>>,
)
    requires
        pre.len() % 2 == 0,
        all_no_comma(pre),
        no_comma(k),
        no_comma(v),
        all_no_comma(post),
        decode_pairs(pre, api_response_empty(), api_response_step_fn()) is Ok,
        k != "code"@,
        k != "type"@,
        k != "message"@,
    ensures
        decode_flat_api_response_spec(join_commas(pre + seq![k, v] + post)) == Err::<
            ApiResponseView,
            DecodeError,
        >(DecodeError::UnexpectedKey),
{
    let stepf = api_response_step_fn();
    let whole = pre + seq![k, v] + post;
    assert(all_no_comma(seq![k, v]));
    lemma_all_no_comma_concat(pre, seq![k, v]);
    lemma_all_no_comma_concat(pre + seq![k, v], post);
    assert(whole.len() >= 2);
    lemma_split_join(whole);
    assert(whole =~= pre + (seq![k, v] + post));
    lemma_decode_pairs_append(pre, seq![k, v] + post, api_response_empty(), stepf);
    let rest = seq![k, v] + post;
    assert(rest[0] == k);
    assert(rest[1] == v);
    if let Ok(m) = decode_pairs(pre, api_response_empty(), stepf) {
        assert(stepf(m, k, v) == Err::<ApiResponseView, DecodeError>(DecodeError::UnexpectedKey));
        assert(decode_pairs(rest, m, stepf) == Err::<ApiResponseView, DecodeError>(
            DecodeError::UnexpectedKey,
        ));
    }
}

/// A value of Customer whose populated fields can travel in the flattened
/// form comes back unchanged from its encoding. The `address` collection
/// cannot travel in this form, so it must be absent.
pub proof fn lemma_flat_round_trip_customer(v: CustomerView)
    requires
        v.id is Some || v.username is Some,
        v.username matches Some(s) ==> no_comma(s),
        v.address is None,
    ensures
        decode_flat_customer_spec(encode_flat_customer_spec(v)) == Ok::<CustomerView, DecodeError>(
            v,
        ),
{
    reveal_strlit("id");
    reveal_strlit("username");
    assert(no_comma("id"@));
    assert(no_comma("username"@));
    let stepf = customer_step_fn();
    let s1: Seq<Seq<char>> = match v.id {
        Some(n) => seq!["id"@, i64_dec(n as int)],
        None => seq![],
    };
    let s2: Seq<Seq<char>> = match v.username {
        Some(s) => seq!["username"@, s],
        None => seq![],
    };
    let segs = customer_segs(v);
    assert(segs == s1 + s2);
    let acc0 = customer_empty();
    let acc1 = CustomerView { id: v.id, username: None, address: None };
    let acc2 = CustomerView { id: v.id, username: v.username, address: None };
    if let Some(n) = v.id {
        lemma_parse_i64_dec(n);
        lemma_i64_dec_no_comma(n as int);
        assert(all_no_comma(s1));
        lemma_decode_one_pair("id"@, i64_dec(n as int), acc0, stepf);
        assert(decode_pairs(s1, acc0, stepf) == Ok::<CustomerView, DecodeError>(acc1));
    } else {
        assert(all_no_comma(s1));
        assert(decode_pairs(s1, acc0, stepf) == Ok::<CustomerView, DecodeError>(acc1));
    }
    if let Some(s) = v.username {
        assert(all_no_comma(s2));
        lemma_decode_pairs_snoc(s1, "username"@, s, acc0, acc1, stepf);
        assert(decode_pairs(segs, acc0, stepf) == Ok::<CustomerView, DecodeError>(acc2));
    } else {
        assert(segs =~= s1);
        assert(decode_pairs(segs, acc0, stepf) == Ok::<CustomerView, DecodeError>(acc2));
    }
    lemma_all_no_comma_concat(s1, s2);
    assert(segs.len() >= 1);
    lemma_split_join(segs);
    assert(acc2 == v);
}

/// A key outside Customer's field set fails the decode with
/// `UnexpectedKey`, wherever in the form it stands.
pub proof fn lemma_unknown_key_customer(
    pre: Seq<Seq<char>>,
    k: Seq<char>,
    v: Seq<char>,
    post: Seq<Seq<char>>,
)
    requires
        pre.len() % 2 == 0,
        all_no_comma(pre),
        no_comma(k),
        no_comma(v),
        all_no_comma(post),
        decode_pairs(pre, customer_empty(), customer_step_fn()) is Ok,
        k != "id"@,
        k != "username"@,
        k != "address"@,
    ensures
        decode_flat_customer_spec(join_commas(pre + seq![k, v] + post)) == Err::<
            CustomerView,
            DecodeError,
        >(DecodeError::UnexpectedKey),
{
    let stepf = customer_step_fn();
    let whole = pre + seq![k, v] + post;
    assert(all_no_comma(seq![k, v]));
    lemma_all_no_comma_concat(pre, seq![k, v]);
    lemma_all_no_comma_concat(pre + seq![k, v], post);
    assert(whole.len() >= 2);
    lemma_split_join(whole);
    assert(whole =~= pre + (seq![k, v] + post));
    lemma_decode_pairs_append(pre, seq![k, v] + post, customer_empty(), stepf);
    let rest = seq![k, v] + post;
    assert(rest[0] == k);
    assert(rest[1] == v);
    if let Ok(m) = decode_pairs(pre, customer_empty(), stepf) {
        assert(stepf(m, k, v) == Err::<CustomerView, DecodeError>(DecodeError::UnexpectedKey));
        assert(decode_pairs(rest, m, stepf) == Err::<CustomerView, DecodeError>(
            DecodeError::UnexpectedKey,
        ));
    }
}

/// A value of Order whose populated fields carry no delimiter, and whose
/// ship date the date-time parser accepts, comes back unchanged from its
/// flattened encoding.
pub proof fn lemma_flat_round_trip_order(v: OrderView)
    requires
        v.id is Some || v.pet_id is Some || v.quantity is Some || v.ship_date is Some
            || v.status is Some || v.complete is Some,
        v.ship_date matches Some(s) ==> no_comma(s) && datetime_ok(s),
        v.status matches Some(s) ==> no_comma(s),
    ensures
        decode_flat_order_spec(encode_flat_order_spec(v)) == Ok::<OrderView, DecodeError>(v),
{
    reveal_strlit("id");
    reveal_strlit("petId");
    reveal_strlit("quantity");
    reveal_strlit("shipDate");
    reveal_strlit("status");
    reveal_strlit("complete");
    assert(no_comma("id"@));
    assert(no_comma("petId"@));
    assert(no_comma("quantity"@));
    assert(no_comma("shipDate"@));
    assert(no_comma("status"@));
    assert(no_comma("complete"@));
    assert("shipDate"@[0] == 's' && "quantity"@[0] == 'q' && "complete"@[0] == 'c');
    assert("shipDate"@ != "quantity"@);
    assert("complete"@ != "quantity"@);
    assert("complete"@ != "shipDate"@);
    let stepf = order_step_fn();
    let s1: Seq<Seq<char>> = match v.id {
        Some(n) => seq!["id"@, i64_dec(n as int)],
        None => seq![],
    };
    let s2: Seq<Seq<char>> = match v.pet_id {
        Some(n) => seq!["petId"@, i64_dec(n as int)],
        None => seq![],
    };
    let s3: Seq<Seq<char>> = match v.quantity {
        Some(n) => seq!["quantity"@, i64_dec(n as int)],
        None => seq![],
    };
    let s4: Seq<Seq<char>> = match v.ship_date {
        Some(s) => seq!["shipDate"@, s],
        None => seq![],
    };
    let s5: Seq<Seq<char>> = match v.status {
        Some(s) => seq!["status"@, s],
        None => seq![],
    };
    let s6: Seq<Seq<char>> = match v.complete {
        Some(b) => seq!["complete"@, crate::nums::bool_str(b)],
        None => seq![],
    };
    let segs = order_segs(v);
    let p1 = s1;
    let p2 = p1 + s2;
    let p3 = p2 + s3;
    let p4 = p3 + s4;
    let p5 = p4 + s5;
    let p6 = p5 + s6;
    assert(segs == p6);
    let acc0 = order_empty();
    let acc1 = OrderView { id: v.id, ..acc0 };
    let acc2 = OrderView { pet_id: v.pet_id, ..acc1 };
    let acc3 = OrderView { quantity: v.quantity, ..acc2 };
    let acc4 = OrderView { ship_date: v.ship_date, ..acc3 };
    let acc5 = OrderView { status: v.status, ..acc4 };
    let acc6 = OrderView { complete: v.complete, ..acc5 };
    if let Some(n) = v.id {
        lemma_parse_i64_dec(n);
        lemma_i64_dec_no_comma(n as int);
        assert(all_no_comma(s1));
        lemma_decode_one_pair("id"@, i64_dec(n as int), acc0, stepf);
        assert(stepf(acc0, "id"@, i64_dec(n as int)) == Ok::<OrderView, DecodeError>(acc1));
        assert(decode_pairs(p1, acc0, stepf) == Ok::<OrderView, DecodeError>(acc1));
    } else {
        assert(all_no_comma(s1));
        assert(decode_pairs(p1, acc0, stepf) == Ok::<OrderView, DecodeError>(acc1));
    }
    if let Some(n) = v.pet_id {
        lemma_parse_i64_dec(n);
        lemma_i64_dec_no_comma(n as int);
        assert(all_no_comma(s2));
        lemma_decode_pairs_snoc(p1, "petId"@, i64_dec(n as int), acc0, acc1, stepf);
        assert(stepf(acc1, "petId"@, i64_dec(n as int)) == Ok::<OrderView, DecodeError>(acc2));
        assert(decode_pairs(p2, acc0, stepf) == Ok::<OrderView, DecodeError>(acc2));
    } else {
        assert(p2 =~= p1);
        assert(decode_pairs(p2, acc0, stepf) == Ok::<OrderView, DecodeError>(acc2));
    }
    if let Some(n) = v.quantity {
        lemma_parse_i64_dec(n as i64);
        lemma_i64_dec_no_comma(n as int);
        assert(all_no_comma(s3));
        lemma_decode_pairs_snoc(p2, "quantity"@, i64_dec(n as int), acc0, acc2, stepf);
        assert(stepf(acc2, "quantity"@, i64_dec(n as int)) == Ok::<OrderView, DecodeError>(acc3));
        assert(decode_pairs(p3, acc0, stepf) == Ok::<OrderView, DecodeError>(acc3));
    } else {
        assert(p3 =~= p2);
        assert(decode_pairs(p3, acc0, stepf) == Ok::<OrderView, DecodeError>(acc3));
    }
    if let Some(s) = v.ship_date {
        assert(all_no_comma(s4));
        lemma_decode_pairs_snoc(p3, "shipDate"@, s, acc0, acc3, stepf);
        assert(stepf(acc3, "shipDate"@, s) == Ok::<OrderView, DecodeError>(acc4));
        assert(decode_pairs(p4, acc0, stepf) == Ok::<OrderView, DecodeError>(acc4));
    } else {
        assert(p4 =~= p3);
        assert(decode_pairs(p4, acc0, stepf) == Ok::<OrderView, DecodeError>(acc4));
    }
    if let Some(s) = v.status {
        assert(all_no_comma(s5));
        lemma_decode_pairs_snoc(p4, "status"@, s, acc0, acc4, stepf);
        assert(stepf(acc4, "status"@, s) == Ok::<OrderView, DecodeError>(acc5));
        assert(decode_pairs(p5, acc0, stepf) == Ok::<OrderView, DecodeError>(acc5));
    } else {
        assert(p5 =~= p4);
        assert(decode_pairs(p5, acc0, stepf) == Ok::<OrderView, DecodeError>(acc5));
    }
    if let Some(b) = v.complete {
        lemma_bool_str_no_comma(b);
        assert(all_no_comma(s6));
        lemma_decode_pairs_snoc(p5, "complete"@, crate::nums::bool_str(b), acc0, acc5, stepf);
        assert(stepf(acc5, "complete"@, crate::nums::bool_str(b)) == Ok::<OrderView, DecodeError>(
            acc6,
        ));
        assert(decode_pairs(p6, acc0, stepf) == Ok::<OrderView, DecodeError>(acc6));
    } else {
        assert(p6 =~= p5);
        assert(decode_pairs(p6, acc0, stepf) == Ok::<OrderView, DecodeError>(acc6));
    }
    lemma_all_no_comma_concat(p1, s2);
    lemma_all_no_comma_concat(p2, s3);
    lemma_all_no_comma_concat(p3, s4);
    lemma_all_no_comma_concat(p4, s5);
    lemma_all_no_comma_concat(p5, s6);
    assert(segs.len() >= 1);
    lemma_split_join(segs);
    assert(acc6 == v);
}

/// A key outside Order's field set fails the decode with `UnexpectedKey`,
/// wherever in the form it stands.
pub proof fn lemma_unknown_key_order(
    pre: Seq<Seq<char>>,
    k: Seq<char>,
    v: Seq<char>,
    post: Seq<Seq<char>>,
)
    requires
        pre.len() % 2 == 0,
        all_no_comma(pre),
        no_comma(k),
        no_comma(v),
        all_no_comma(post),
        decode_pairs(pre, order_empty(), order_step_fn()) is Ok,
        k != "id"@,
        k != "petId"@,
        k != "quantity"@,
        k != "shipDate"@,
        k != "status"@,
        k != "complete"@,
    ensures
        decode_flat_order_spec(join_commas(pre + seq![k, v] + post)) == Err::<
            OrderView,
            DecodeError,
        >(DecodeError::UnexpectedKey),
{
    let stepf = order_step_fn();
    let whole = pre + seq![k, v] + post;
    assert(all_no_comma(seq![k, v]));
    lemma_all_no_comma_concat(pre, seq![k, v]);
    lemma_all_no_comma_concat(pre + seq![k, v], post);
    assert(whole.len() >= 2);
    lemma_split_join(whole);
    assert(whole =~= pre + (seq![k, v] + post));
    lemma_decode_pairs_append(pre, seq![k, v] + post, order_empty(), stepf);
    let rest = seq![k, v] + post;
    assert(rest[0] == k);
    assert(rest[1] == v);
    if let Ok(m) = decode_pairs(pre, order_empty(), stepf) {
        assert(stepf(m, k, v) == Err::<OrderView, DecodeError>(DecodeError::UnexpectedKey));
        assert(decode_pairs(rest, m, stepf) == Err::<OrderView, DecodeError>(
            DecodeError::UnexpectedKey,
        ));
    }
}

/// A value of User whose populated fields carry no delimiter comes back
/// unchanged from its flattened encoding.
pub proof fn lemma_flat_round_trip_user(v: UserView)
    requires
        v.id is Some || v.username is Some || v.first_name is Some || v.last_name is Some
            || v.email is Some || v.password is Some || v.phone is Some || v.user_status is Some,
        v.username matches Some(s) ==> no_comma(s),
        v.first_name matches Some(s) ==> no_comma(s),
        v.last_name matches Some(s) ==> no_comma(s),
        v.email matches Some(s) ==> no_comma(s),
        v.password matches Some(s) ==> no_comma(s),
        v.phone matches Some(s) ==> no_comma(s),
    ensures
        decode_flat_user_spec(encode_flat_user_spec(v)) == Ok::<UserView, DecodeError>(v),
{
    reveal_strlit("id");
    reveal_strlit("username");
    reveal_strlit("firstName");
    reveal_strlit("lastName");
    reveal_strlit("email");
    reveal_strlit("password");
    reveal_strlit("phone");
    reveal_strlit("userStatus");
    assert(no_comma("id"@));
    assert(no_comma("username"@));
    assert(no_comma("firstName"@));
    assert(no_comma("lastName"@));
    assert(no_comma("email"@));
    assert(no_comma("password"@));
    assert(no_comma("phone"@));
    assert(no_comma("userStatus"@));
    assert("lastName"@[0] == 'l' && "username"@[0] == 'u' && "password"@[0] == 'p' && "phone"@[0]
        == 'p' && "email"@[0] == 'e');
    assert("lastName"@ != "username"@);
    assert("password"@ != "username"@);
    assert("password"@ != "lastName"@);
    assert("phone"@ != "email"@);
    let stepf = user_step_fn();
    let s1: Seq<Seq<char>> = match v.id {
        Some(n) => seq!["id"@, i64_dec(n as int)],
        None => seq![],
    };
    let s2: Seq<Seq<char>> = match v.username {
        Some(s) => seq!["username"@, s],
        None => seq![],
    };
    let s3: Seq<Seq<char>> = match v.first_name {
        Some(s) => seq!["firstName"@, s],
        None => seq![],
    };
    let s4: Seq<Seq<char>> = match v.last_name {
        Some(s) => seq!["lastName"@, s],
        None => seq![],
    };
    let s5: Seq<Seq<char>> = match v.email {
        Some(s) => seq!["email"@, s],
        None => seq![],
    };
    let s6: Seq<Seq<char>> = match v.password {
        Some(s) => seq!["password"@, s],
        None => seq![],
    };
    let s7: Seq<Seq<char>> = match v.phone {
        Some(s) => seq!["phone"@, s],
        None => seq![],
    };
    let s8: Seq<Seq<char>> = match v.user_status {
        Some(n) => seq!["userStatus"@, i64_dec(n as int)],
        None => seq![],
    };
    let segs = user_segs(v);
    let p1 = s1;
    let p2 = p1 + s2;
    let p3 = p2 + s3;
    let p4 = p3 + s4;
    let p5 = p4 + s5;
    let p6 = p5 + s6;
    let p7 = p6 + s7;
    let p8 = p7 + s8;
    assert(segs == p8);
    let acc0 = user_empty();
    let acc1 = UserView { id: v.id, ..acc0 };
    let acc2 = UserView { username: v.username, ..acc1 };
    let acc3 = UserView { first_name: v.first_name, ..acc2 };
    let acc4 = UserView { last_name: v.last_name, ..acc3 };
    let acc5 = UserView { email: v.email, ..acc4 };
    let acc6 = UserView { password: v.password, ..acc5 };
    let acc7 = UserView { phone: v.phone, ..acc6 };
    let acc8 = UserView { user_status: v.user_status, ..acc7 };
    if let Some(n) = v.id {
        lemma_parse_i64_dec(n);
        lemma_i64_dec_no_comma(n as int);
        assert(all_no_comma(s1));
        lemma_decode_one_pair("id"@, i64_dec(n as int), acc0, stepf);
        assert(stepf(acc0, "id"@, i64_dec(n as int)) == Ok::<UserView, DecodeError>(acc1));
        assert(decode_pairs(p1, acc0, stepf) == Ok::<UserView, DecodeError>(acc1));
    } else {
        assert(all_no_comma(s1));
        assert(decode_pairs(p1, acc0, stepf) == Ok::<UserView, DecodeError>(acc1));
    }
    if let Some(s) = v.username {
        assert(all_no_comma(s2));
        lemma_decode_pairs_snoc(p1, "username"@, s, acc0, acc1, stepf);
        assert(stepf(acc1, "username"@, s) == Ok::<UserView, DecodeError>(acc2));
        assert(decode_pairs(p2, acc0, stepf) == Ok::<UserView, DecodeError>(acc2));
    } else {
        assert(p2 =~= p1);
        assert(decode_pairs(p2, acc0, stepf) == Ok::<UserView, DecodeError>(acc2));
    }
    if let Some(s) = v.first_name {
        assert(all_no_comma(s3));
        lemma_decode_pairs_snoc(p2, "firstName"@, s, acc0, acc2, stepf);
        assert(stepf(acc2, "firstName"@, s) == Ok::<UserView, DecodeError>(acc3));
        assert(decode_pairs(p3, acc0, stepf) == Ok::<UserView, DecodeError>(acc3));
    } else {
        assert(p3 =~= p2);
        assert(decode_pairs(p3, acc0, stepf) == Ok::<UserView, DecodeError>(acc3));
    }
    if let Some(s) = v.last_name {
        assert(all_no_comma(s4));
        lemma_decode_pairs_snoc(p3, "lastName"@, s, acc0, acc3, stepf);
        assert(stepf(acc3, "lastName"@, s) == Ok::<UserView, DecodeError>(acc4));
        assert(decode_pairs(p4, acc0, stepf) == Ok::<UserView, DecodeError>(acc4));
    } else {
        assert(p4 =~= p3);
        assert(decode_pairs(p4, acc0, stepf) == Ok::<UserView, DecodeError>(acc4));
    }
    if let Some(s) = v.email {
        assert(all_no_comma(s5));
        lemma_decode_pairs_snoc(p4, "email"@, s, acc0, acc4, stepf);
        assert(stepf(acc4, "email"@, s) == Ok::<UserView, DecodeError>(acc5));
        assert(decode_pairs(p5, acc0, stepf) == Ok::<UserView, DecodeError>(acc5));
    } else {
        assert(p5 =~= p4);
        assert(decode_pairs(p5, acc0, stepf) == Ok::<UserView, DecodeError>(acc5));
    }
    if let Some(s) = v.password {
        assert(all_no_comma(s6));
        lemma_decode_pairs_snoc(p5, "password"@, s, acc0, acc5, stepf);
        assert(stepf(acc5, "password"@, s) == Ok::<UserView, DecodeError>(acc6));
        assert(decode_pairs(p6, acc0, stepf) == Ok::<UserView, DecodeError>(acc6));
    } else {
        assert(p6 =~= p5);
        assert(decode_pairs(p6, acc0, stepf) == Ok::<UserView, DecodeError>(acc6));
    }
    if let Some(s) = v.phone {
        assert(all_no_comma(s7));
        lemma_decode_pairs_snoc(p6, "phone"@, s, acc0, acc6, stepf);
        assert(stepf(acc6, "phone"@, s) == Ok::<UserView, DecodeError>(acc7));
        assert(decode_pairs(p7, acc0, stepf) == Ok::<UserView, DecodeError>(acc7));
    } else {
        assert(p7 =~= p6);
        assert(decode_pairs(p7, acc0, stepf) == Ok::<UserView, DecodeError>(acc7));
    }
    if let Some(n) = v.user_status {
        lemma_parse_i64_dec(n as i64);
        lemma_i64_dec_no_comma(n as int);
        assert(all_no_comma(s8));
        lemma_decode_pairs_snoc(p7, "userStatus"@, i64_dec(n as int), acc0, acc7, stepf);
        assert(stepf(acc7, "userStatus"@, i64_dec(n as int)) == Ok::<UserView, DecodeError>(acc8));
        assert(decode_pairs(p8, acc0, stepf) == Ok::<UserView, DecodeError>(acc8));
    } else {
        assert(p8 =~= p7);
        assert(decode_pairs(p8, acc0, stepf) == Ok::<UserView, DecodeError>(acc8));
    }
    lemma_all_no_comma_concat(p1, s2);
    lemma_all_no_comma_concat(p2, s3);
    lemma_all_no_comma_concat(p3, s4);
    lemma_all_no_comma_concat(p4, s5);
    lemma_all_no_comma_concat(p5, s6);
    lemma_all_no_comma_concat(p6, s7);
    lemma_all_no_comma_concat(p7, s8);
    assert(segs.len() >= 1);
    lemma_split_join(segs);
    assert(acc8 == v);
}

/// A key outside User's field set fails the decode with `UnexpectedKey`,
/// wherever in the form it stands.
pub proof fn lemma_unknown_key_user(
    pre: Seq<Seq<char>>,
    k: Seq<char>,
    v: Seq<char>,
    post: Seq<Seq<char>>,
)
    requires
        pre.len() % 2 == 0,
        all_no_comma(pre),
        no_comma(k),
        no_comma(v),
        all_no_comma(post),
        decode_pairs(pre, user_empty(), user_step_fn()) is Ok,
        k != "id"@,
        k != "username"@,
        k != "firstName"@,
        k != "lastName"@,
        k != "email"@,
        k != "password"@,
        k != "phone"@,
        k != "userStatus"@,
    ensures
        decode_flat_user_spec(join_commas(pre + seq![k, v] + post)) == Err::<UserView, DecodeError>(
            DecodeError::UnexpectedKey,
        ),
{
    let stepf = user_step_fn();
    let whole = pre + seq![k, v] + post;
    assert(all_no_comma(seq![k, v]));
    lemma_all_no_comma_concat(pre, seq![k, v]);
    lemma_all_no_comma_concat(pre + seq![k, v], post);
    assert(whole.len() >= 2);
    lemma_split_join(whole);
    assert(whole =~= pre + (seq![k, v] + post));
    lemma_decode_pairs_append(pre, seq![k, v] + post, user_empty(), stepf);
    let rest = seq![k, v] + post;
    assert(rest[0] == k);
    assert(rest[1] == v);
    if let Ok(m) = decode_pairs(pre, user_empty(), stepf) {
        assert(stepf(m, k, v) == Err::<UserView, DecodeError>(DecodeError::UnexpectedKey));
        assert(decode_pairs(rest, m, stepf) == Err::<UserView, DecodeError>(
            DecodeError::UnexpectedKey,
        ));
    }
}

/// A key outside Pet's field set fails the decode with `UnexpectedKey`,
/// wherever in the form it stands.
pub proof fn lemma_unknown_key_pet(
    pre: Seq<Seq<char>>,
    k: Seq<char>,
    v: Seq<char>,
    post: Seq<Seq<char>>,
)
    requires
        pre.len() % 2 == 0,
        all_no_comma(pre),
        no_comma(k),
        no_comma(v),
        all_no_comma(post),
        decode_pairs(pre, pet_acc_empty(), pet_step_fn()) is Ok,
        k != "id"@,
        k != "name"@,
        k != "category"@,
        k != "photoUrls"@,
        k != "tags"@,
        k != "status"@,
    ensures
        decode_flat_pet_spec(join_commas(pre + seq![k, v] + post)) == Err::<
            crate::models::PetView,
            DecodeError,
        >(DecodeError::UnexpectedKey),
{
    let stepf = pet_step_fn();
    let whole = pre + seq![k, v] + post;
    assert(all_no_comma(seq![k, v]));
    lemma_all_no_comma_concat(pre, seq![k, v]);
    lemma_all_no_comma_concat(pre + seq![k, v], post);
    assert(whole.len() >= 2);
    lemma_split_join(whole);
    assert(whole =~= pre + (seq![k, v] + post));
    lemma_decode_pairs_append(pre, seq![k, v] + post, pet_acc_empty(), stepf);
    let rest = seq![k, v] + post;
    assert(rest[0] == k);
    assert(rest[1] == v);
    if let Ok(m) = decode_pairs(pre, pet_acc_empty(), stepf) {
        assert(stepf(m, k, v) == Err::<PetAcc, DecodeError>(DecodeError::UnexpectedKey));
        assert(decode_pairs(rest, m, stepf) == Err::<PetAcc, DecodeError>(
            DecodeError::UnexpectedKey,
        ));
    }
}

/// The photo list of a Pet can never be read from the flattened form: it
/// stays missing through any run of pairs the scanner accepts.
pub proof fn lemma_pet_photo_urls_never_set(toks: Seq<Seq<char>>, acc: PetAcc)
    requires
        acc.photo_urls is None,
    ensures
        decode_pairs(toks, acc, pet_step_fn()) matches Ok(a) ==> a.photo_urls is None,
    decreases toks.len(),
{
    let stepf = pet_step_fn();
    if toks.len() >= 2 {
        match stepf(acc, toks[0], toks[1]) {
            Ok(a2) => {
                lemma_pet_photo_urls_never_set(toks.skip(2), a2);
            },
            Err(e) => {},
        }
    }
}

/// A flattened form for Pet whose pairs the scanner accepts always fails
/// with `MissingRequiredField`: the required photo list (and, if omitted,
/// the required name) cannot be supplied by this form.
pub proof fn lemma_pet_missing_required(s: Seq<char>)
    ensures
        decode_pairs(split_commas(s), pet_acc_empty(), pet_step_fn()) is Ok
            ==> decode_flat_pet_spec(s) == Err::<crate::models::PetView, DecodeError>(
            DecodeError::MissingRequiredField,
        ),
{
    lemma_pet_photo_urls_never_set(split_commas(s), pet_acc_empty());
    if let Ok(a) = decode_pairs(split_commas(s), pet_acc_empty(), pet_step_fn()) {
        assert(a.photo_urls is None);
        assert(pet_build(a) == Err::<crate::models::PetView, DecodeError>(
            DecodeError::MissingRequiredField,
        ));
    }
}

} // verus!
