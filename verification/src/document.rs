//! The structured wire form: a nested document (object graph).
//!
//! A document is a scalar, a list of documents, or an object of named
//! fields. The model codecs encode into and decode from this shape; the
//! transport turns it into concrete bytes.

use vstd::prelude::*;

use crate::error::DecodeError;

verus! {

broadcast use vstd::std_specs::vec::axiom_vec_index_decreases;

/// One node of a structured document.
#[derive(Debug)]
pub enum Document {
    Bool(bool),
    Int(i64),
    Str(String),
    Arr(Vec<Document>),
    Obj(Vec<(String, Document)>),
}

/// The mathematical shape of a document.
pub enum DocView {
    Bool(bool),
    Int(i64),
    Str(Seq<char>),
    Arr(Seq<DocView>),
    Obj(Seq<(Seq<char>, DocView)>),
}

impl Document {
    /// The mathematical shape of this document.
    pub open spec fn dview(self) -> DocView
        decreases self,
    {
        match self {
            Document::Bool(b) => DocView::Bool(b),
            Document::Int(n) => DocView::Int(n),
            Document::Str(s) => DocView::Str(s@),
            Document::Arr(items) => DocView::Arr(
                Seq::new(
                    items@.len(),
                    |i: int|
                        if 0 <= i < items@.len() {
                            items[i].dview()
                        } else {
                            DocView::Bool(false)
                        },
                ),
            ),
            Document::Obj(fields) => DocView::Obj(
                Seq::new(
                    fields@.len(),
                    |i: int|
                        if 0 <= i < fields@.len() {
                            (fields[i].0@, fields[i].1.dview())
                        } else {
                            (Seq::empty(), DocView::Bool(false))
                        },
                ),
            ),
        }
    }
}

impl View for Document {
    type V = DocView;

    open spec fn view(&self) -> DocView {
        self.dview()
    }
}

/// The value under the first occurrence of a key in an object's fields.
/// Later occurrences are ignored, like every unknown field.
pub open spec fn obj_lookup(fields: Seq<(Seq<char>, DocView)>, k: Seq<char>) -> Option<DocView>
    decreases fields.len(),
{
    if fields.len() == 0 {
        None
    } else if fields[0].0 == k {
        Some(fields[0].1)
    } else {
        obj_lookup(fields.drop_first(), k)
    }
}

/// An optional integer field: absent, an integer node, or a wrong shape.
pub open spec fn get_i64(fields: Seq<(Seq<char>, DocView)>, k: Seq<char>) -> Result<
    Option<i64>,
    DecodeError,
> {
    match obj_lookup(fields, k) {
        None => Ok(None),
        Some(DocView::Int(n)) => Ok(Some(n)),
        Some(_) => Err(DecodeError::InvalidValue),
    }
}

/// An optional 32-bit integer field; an integer node out of range is
/// rejected.
pub open spec fn get_i32(fields: Seq<(Seq<char>, DocView)>, k: Seq<char>) -> Result<
    Option<i32>,
    DecodeError,
> {
    match obj_lookup(fields, k) {
        None => Ok(None),
        Some(DocView::Int(n)) => if i32::MIN <= n <= i32::MAX {
            Ok(Some(n as i32))
        } else {
            Err(DecodeError::InvalidValue)
        },
        Some(_) => Err(DecodeError::InvalidValue),
    }
}

/// An optional text field.
pub open spec fn get_str(fields: Seq<(Seq<char>, DocView)>, k: Seq<char>) -> Result<
    Option<Seq<char>>,
    DecodeError,
> {
    match obj_lookup(fields, k) {
        None => Ok(None),
        Some(DocView::Str(s)) => Ok(Some(s)),
        Some(_) => Err(DecodeError::InvalidValue),
    }
}

/// An optional boolean field.
pub open spec fn get_bool(fields: Seq<(Seq<char>, DocView)>, k: Seq<char>) -> Result<
    Option<bool>,
    DecodeError,
> {
    match obj_lookup(fields, k) {
        None => Ok(None),
        Some(DocView::Bool(b)) => Ok(Some(b)),
        Some(_) => Err(DecodeError::InvalidValue),
    }
}

/// An optional date-time field: a text node the date-time parser accepts.
pub open spec fn get_datetime(fields: Seq<(Seq<char>, DocView)>, k: Seq<char>) -> Result<
    Option<Seq<char>>,
    DecodeError,
> {
    match obj_lookup(fields, k) {
        None => Ok(None),
        Some(DocView::Str(s)) => if crate::datetime::datetime_ok(s) {
            Ok(Some(s))
        } else {
            Err(DecodeError::InvalidValue)
        },
        Some(_) => Err(DecodeError::InvalidValue),
    }
}

/// The fields of an object document, seen mathematically.
pub open spec fn obj_fields_view(fields: Seq<(String, Document)>) -> Seq<(Seq<char>, DocView)> {
    fields.map_values(|p: (String, Document)| (p.0@, p.1.dview()))
}

/// Finds the first field under the given key.
pub fn doc_obj_get<'a>(fields: &'a Vec<(String, Document)>, k: &str) -> (r: Option<&'a Document>)
    ensures
        match r {
            Some(d) => obj_lookup(obj_fields_view(fields@), k@) == Some(d.dview()),
            None => obj_lookup(obj_fields_view(fields@), k@) == None::<DocView>,
        },
{
    let ghost fv = obj_fields_view(fields@);
    let mut i: usize = 0;
    proof {
        assert(fv.skip(0) =~= fv);
    }
    while i < fields.len()
        invariant
            i <= fields.len(),
            fv == obj_fields_view(fields@),
            obj_lookup(fv.skip(i as int), k@) == obj_lookup(fv, k@),
        decreases fields.len() - i,
    {
        proof {
            assert(fv[i as int] == (fields@[i as int].0@, fields@[i as int].1.dview()));
            assert(fv.skip(i as int)[0] == fv[i as int]);
            assert(fv.skip(i as int).drop_first() =~= fv.skip(i as int + 1));
        }
        if crate::strutil::str_eq(fields[i].0.as_str(), k) {
            return Some(&fields[i].1);
        }
        i += 1;
    }
    proof {
        assert(fv.skip(i as int) =~= Seq::<(Seq<char>, DocView)>::empty());
    }
    None
}

/// Appends one named field to an object under construction.
pub fn push_field(fields: &mut Vec<(String, Document)>, k: &str, d: Document)
    ensures
        obj_fields_view(final(fields)@) == obj_fields_view(old(fields)@) + seq![(k@, d.dview())],
{
    let ghost pre = obj_fields_view(fields@);
    let ghost dv = d.dview();
    fields.push((String::from_str(k), d));
    proof {
        assert(obj_fields_view(fields@) =~= pre + seq![(k@, dv)]);
    }
}

} // verus!
