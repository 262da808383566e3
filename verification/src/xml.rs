//! The alternate wire form: a tree-markup rendering of the structured
//! document.
//!
//! A scalar or object is wrapped in one element named after its field; a
//! list repeats its element name once per item; text escapes the three
//! markup characters. Encoding is total: every well-formed value renders.

use vstd::prelude::*;

use crate::document::{DocView, Document};
use crate::models::{Address, ApiResponse, Category, Customer, Order, Pet, Tag, User};
use crate::nums::{bool_str, bool_to_string, i64_dec, i64_to_string};
use crate::strutil::push_char;
use crate::structured::{
    address_doc, api_response_doc, category_doc, customer_doc, docs_view, order_doc, pet_doc,
    tag_doc, user_doc,
};

verus! {

broadcast use vstd::seq::axiom_seq_index_decreases, vstd::seq::axiom_seq_subrange_decreases,
    vstd::std_specs::vec::axiom_vec_index_decreases;

/// The markup text of one character of content.
pub open spec fn xml_escape_char(c: char) -> Seq<char> {
    if c == '&' {
        "&amp;"@
    } else if c == '<' {
        "&lt;"@
    } else if c == '>' {
        "&gt;"@
    } else {
        seq![c]
    }
}

/// The markup text of a run of content characters.
pub open spec fn xml_escape(s: Seq<char>) -> Seq<char>
    decreases s.len(),
{
    if s.len() == 0 {
        Seq::empty()
    } else {
        xml_escape_char(s[0]) + xml_escape(s.drop_first())
    }
}

/// A body wrapped in an element with the given name.
pub open spec fn xml_elem(name: Seq<char>, body: Seq<char>) -> Seq<char> {
    seq!['<'] + name + seq!['>'] + body + seq!['<', '/'] + name + seq!['>']
}

/// The markup text of a document under an element name.
pub open spec fn xml_of(name: Seq<char>, d: DocView) -> Seq<char>
    decreases d, 1int,
{
    match d {
        DocView::Bool(b) => xml_elem(name, bool_str(b)),
        DocView::Int(n) => xml_elem(name, i64_dec(n as int)),
        DocView::Str(s) => xml_elem(name, xml_escape(s)),
        DocView::Arr(items) => xml_seq(name, items),
        DocView::Obj(fields) => xml_elem(name, xml_fields(fields)),
    }
}

/// A list renders as one element per item, all under the list's name.
pub open spec fn xml_seq(name: Seq<char>, items: Seq<DocView>) -> Seq<char>
    decreases items, 0int,
{
    if items.len() == 0 {
        Seq::empty()
    } else {
        xml_of(name, items[0]) + xml_seq(name, items.drop_first())
    }
}

/// An object's fields render in order, each under its own name.
pub open spec fn xml_fields(fields: Seq<(Seq<char>, DocView)>) -> Seq<char>
    decreases fields, 0int,
{
    if fields.len() == 0 {
        Seq::empty()
    } else {
        xml_of(fields[0].0, fields[0].1) + xml_fields(fields.drop_first())
    }
}

/// Escapes a run of content characters.
fn xml_escape_exec(s: &str) -> (r: String)
    ensures
        r@ == xml_escape(s@),
{
    let len = s.unicode_len();
    let mut out = String::new();
    let mut i: usize = 0;
    proof {
        assert(s@.skip(0) =~= s@);
        assert(out@ + xml_escape(s@) =~= xml_escape(s@));
    }
    while i < len
        invariant
            i <= len,
            len == s@.len(),
            out@ + xml_escape(s@.skip(i as int)) == xml_escape(s@),
        decreases len - i,
    {
        let ghost pre = out@;
        let ghost rest = s@.skip(i as int);
        proof {
            assert(rest[0] == s@[i as int]);
            assert(rest.drop_first() =~= s@.skip(i as int + 1));
            assert(xml_escape(rest) == xml_escape_char(s@[i as int]) + xml_escape(
                s@.skip(i as int + 1),
            ));
        }
        let c = s.get_char(i);
        if c == '&' {
            out.append("&amp;");
            proof {
                reveal_strlit("&amp;");
                assert(out@ =~= pre + xml_escape_char(c));
            }
        } else if c == '<' {
            out.append("&lt;");
            proof {
                reveal_strlit("&lt;");
                assert(out@ =~= pre + xml_escape_char(c));
            }
        } else if c == '>' {
            out.append("&gt;");
            proof {
                reveal_strlit("&gt;");
                assert(out@ =~= pre + xml_escape_char(c));
            }
        } else {
            push_char(&mut out, c);
            proof {
                assert(out@ =~= pre + xml_escape_char(c));
            }
        }
        proof {
            assert(out@ + xml_escape(s@.skip(i as int + 1)) =~= pre + xml_escape(rest));
        }
        i += 1;
    }
    proof {
        assert(s@.skip(i as int) =~= Seq::<char>::empty());
        assert(out@ + Seq::<char>::empty() =~= out@);
    }
    out
}

/// Wraps a body in an element with the given name.
fn xml_elem_exec(name: &str, body: &str) -> (r: String)
    ensures
        r@ == xml_elem(name@, body@),
{
    let mut out = String::new();
    push_char(&mut out, '<');
    out.append(name);
    push_char(&mut out, '>');
    out.append(body);
    push_char(&mut out, '<');
    push_char(&mut out, '/');
    out.append(name);
    push_char(&mut out, '>');
    proof {
        assert(out@ =~= xml_elem(name@, body@));
    }
    out
}

/// Renders a document as markup under the given element name.
pub fn xml_render(name: &str, d: &Document) -> (r: String)
    ensures
        r@ == xml_of(name@, d.dview()),
    decreases *d,
{
    match d {
        Document::Bool(b) => {
            let body = bool_to_string(*b);
            xml_elem_exec(name, body.as_str())
        },
        Document::Int(n) => {
            let body = i64_to_string(*n);
            xml_elem_exec(name, body.as_str())
        },
        Document::Str(s) => {
            let body = xml_escape_exec(s.as_str());
            xml_elem_exec(name, body.as_str())
        },
        Document::Arr(items) => {
            let ghost dv = docs_view(items@);
            proof {
                assert(d.dview() matches DocView::Arr(els) && els =~= dv);
            }
            let mut out = String::new();
            let mut i: usize = 0;
            proof {
                assert(dv.skip(0) =~= dv);
                assert(out@ + xml_seq(name@, dv) =~= xml_seq(name@, dv));
            }
            while i < items.len()
                invariant
                    i <= items.len(),
                    *d == Document::Arr(*items),
                    dv == docs_view(items@),
                    out@ + xml_seq(name@, dv.skip(i as int)) == xml_seq(name@, dv),
                decreases items.len() - i,
            {
                let ghost pre = out@;
                let ghost rest = dv.skip(i as int);
                proof {
                    assert(rest[0] == dv[i as int]);
                    assert(dv[i as int] == items@[i as int].dview());
                    assert(rest.drop_first() =~= dv.skip(i as int + 1));
                    assert(xml_seq(name@, rest) == xml_of(name@, dv[i as int]) + xml_seq(
                        name@,
                        dv.skip(i as int + 1),
                    ));
                }
                proof {
                    assert(decreases_to!(*d => d->Arr_0));
                    assert(d->Arr_0 == *items);
                    assert(decreases_to!(*items => items@[i as int]));
                    assert(decreases_to!(*d => items@[i as int]));
                }
                let piece = xml_render(name, &items[i]);
                out.append(piece.as_str());
                proof {
                    assert(out@ + xml_seq(name@, dv.skip(i as int + 1)) =~= pre + xml_seq(
                        name@,
                        rest,
                    ));
                }
                i += 1;
            }
            proof {
                assert(dv.skip(i as int) =~= Seq::<DocView>::empty());
                assert(out@ + Seq::<char>::empty() =~= out@);
            }
            out
        },
        Document::Obj(fields) => {
            let ghost fv = crate::document::obj_fields_view(fields@);
            proof {
                assert(d.dview() matches DocView::Obj(g) && g =~= fv);
            }
            let mut body = String::new();
            let mut i: usize = 0;
            proof {
                assert(fv.skip(0) =~= fv);
                assert(body@ + xml_fields(fv) =~= xml_fields(fv));
            }
            while i < fields.len()
                invariant
                    i <= fields.len(),
                    *d == Document::Obj(*fields),
                    fv == crate::document::obj_fields_view(fields@),
                    body@ + xml_fields(fv.skip(i as int)) == xml_fields(fv),
                decreases fields.len() - i,
            {
                let ghost pre = body@;
                let ghost rest = fv.skip(i as int);
                proof {
                    assert(rest[0] == fv[i as int]);
                    assert(fv[i as int] == (fields@[i as int].0@, fields@[i as int].1.dview()));
                    assert(rest.drop_first() =~= fv.skip(i as int + 1));
                    assert(xml_fields(rest) == xml_of(fv[i as int].0, fv[i as int].1) + xml_fields(
                        fv.skip(i as int + 1),
                    ));
                }
                proof {
                    assert(decreases_to!(*d => d->Obj_0));
                    assert(d->Obj_0 == *fields);
                    assert(decreases_to!(*fields => fields@[i as int]));
                    assert(decreases_to!(fields@[i as int] => fields@[i as int].1));
                    assert(decreases_to!(*d => fields@[i as int].1));
                }
                let piece = xml_render(fields[i].0.as_str(), &fields[i].1);
                body.append(piece.as_str());
                proof {
                    assert(body@ + xml_fields(fv.skip(i as int + 1)) =~= pre + xml_fields(rest));
                }
                i += 1;
            }
            proof {
                assert(fv.skip(i as int) =~= Seq::<(Seq<char>, DocView)>::empty());
                assert(body@ + Seq::<char>::empty() =~= body@);
            }
            xml_elem_exec(name, body.as_str())
        },
    }
}

impl Address {
    /// The alternate-document form: the structured document of this value
    /// rendered as markup under its root element name.
    pub fn encode_alternate(&self) -> (r: String)
        ensures
            r@ == xml_of("address"@, address_doc(self@)),
    {
        let doc = self.encode_structured();
        xml_render("address", &doc)
    }
}

impl ApiResponse {
    /// The alternate-document form of this value.
    pub fn encode_alternate(&self) -> (r: String)
        ensures
            r@ == xml_of("api_response"@, api_response_doc(self@)),
    {
        let doc = self.encode_structured();
        xml_render("api_response", &doc)
    }
}

impl Category {
    /// The alternate-document form of this value.
    pub fn encode_alternate(&self) -> (r: String)
        ensures
            r@ == xml_of("category"@, category_doc(self@)),
    {
        let doc = self.encode_structured();
        xml_render("category", &doc)
    }
}

impl Customer {
    /// The alternate-document form of this value.
    pub fn encode_alternate(&self) -> (r: String)
        ensures
            r@ == xml_of("customer"@, customer_doc(self@)),
    {
        let doc = self.encode_structured();
        xml_render("customer", &doc)
    }
}

impl Order {
    /// The alternate-document form of this value.
    pub fn encode_alternate(&self) -> (r: String)
        ensures
            r@ == xml_of("order"@, order_doc(self@)),
    {
        let doc = self.encode_structured();
        xml_render("order", &doc)
    }
}

impl Pet {
    /// The alternate-document form of this value.
    pub fn encode_alternate(&self) -> (r: String)
        ensures
            r@ == xml_of("pet"@, pet_doc(self@)),
    {
        let doc = self.encode_structured();
        xml_render("pet", &doc)
    }
}

impl Tag {
    /// The alternate-document form of this value.
    pub fn encode_alternate(&self) -> (r: String)
        ensures
            r@ == xml_of("tag"@, tag_doc(self@)),
    {
        let doc = self.encode_structured();
        xml_render("tag", &doc)
    }
}

impl User {
    /// The alternate-document form of this value.
    pub fn encode_alternate(&self) -> (r: String)
        ensures
            r@ == xml_of("user"@, user_doc(self@)),
    {
        let doc = self.encode_structured();
        xml_render("user", &doc)
    }
}

} // verus!
