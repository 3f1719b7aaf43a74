use vstd::prelude::*;
use crate::text::str_eq;

verus! {

/// A flat field value of a decoded JSON object: the three scalar shapes the
/// schema can extract, or `Complex` for anything else (null, nested values,
/// numbers outside `i64`).
#[derive(Debug)]
pub enum JsonPrim {
    Int(i64),
    Text(String),
    Flag(bool),
    Complex,
}

/// The mathematical value of a [`JsonPrim`].
pub enum PrimView {
    Int(i64),
    Text(Seq<char>),
    Flag(bool),
    Complex,
}

impl View for JsonPrim {
    type V = PrimView;

    open spec fn view(&self) -> PrimView {
        match self {
            JsonPrim::Int(i) => PrimView::Int(*i),
            JsonPrim::Text(s) => PrimView::Text(s@),
            JsonPrim::Flag(b) => PrimView::Flag(*b),
            JsonPrim::Complex => PrimView::Complex,
        }
    }
}

/// One JSON value as the decoder reads it: its scalar fields when it is an
/// object (empty otherwise), and its raw serialized text, kept whole for the
/// synthetic `attrs` column.
#[derive(Debug)]
pub struct JsonElem {
    pub fields: Vec<(String, JsonPrim)>,
    pub raw: String,
}

/// The mathematical value of a [`JsonElem`].
pub struct ElemView {
    pub fields: Seq<(Seq<char>, PrimView)>,
    pub raw: Seq<char>,
}

impl View for JsonElem {
    type V = ElemView;

    open spec fn view(&self) -> ElemView {
        ElemView {
            fields: Seq::new(self.fields@.len(), |i: int| (self.fields@[i].0@, self.fields@[i].1@)),
            raw: self.raw@,
        }
    }
}

/// The views of a sequence of elements.
pub open spec fn elems_view(s: Seq<JsonElem>) -> Seq<ElemView> {
    Seq::new(s.len(), |i: int| s[i]@)
}

/// A parsed response body: the top-level value, and every top-level entry
/// that holds an array, with its elements.
#[derive(Debug)]
pub struct JsonPage {
    pub top: JsonElem,
    pub lists: Vec<(String, Vec<JsonElem>)>,
}

/// The mathematical value of a [`JsonPage`].
pub struct PageView {
    pub top: ElemView,
    pub lists: Seq<(Seq<char>, Seq<ElemView>)>,
}

impl View for JsonPage {
    type V = PageView;

    open spec fn view(&self) -> PageView {
        PageView {
            top: self.top@,
            lists: Seq::new(self.lists@.len(), |i: int| (self.lists@[i].0@, elems_view(self.lists@[i].1@))),
        }
    }
}

/// What parsing a response body yields: `None` when the body is not valid
/// JSON, else the flattened page. The JSON grammar takes pages to state, so
/// the result is only named here; the trusted parser below is the sole
/// authority on it, and everything downstream is verified for every value
/// the name could take.
pub uninterp spec fn page_of(s: Seq<char>) -> Option<PageView>;

#[verifier::external_type_specification]
#[verifier::external_body]
pub struct ExValue(serde_json::Value);

/// Flattening half of `parse_page`: relies on `serde_json::Value`'s accessors
/// (`as_object`, `as_i64`, `as_str`, `as_bool`) to read each scalar field,
/// and on `Value::to_string` for the raw serialized text.
#[verifier::external_body]
fn elem_of(v: &serde_json::Value) -> JsonElem {
    let mut fields: Vec<(String, JsonPrim)> = Vec::new();
    if let Some(m) = v.as_object() {
        for (k, x) in m {
            let p = if let Some(i) = x.as_i64() { JsonPrim::Int(i) }
            else if let Some(s) = x.as_str() { JsonPrim::Text(s.to_string()) }
            else if let Some(b) = x.as_bool() { JsonPrim::Flag(b) }
            else { JsonPrim::Complex };
            fields.push((k.clone(), p));
        }
    }
    JsonElem { fields, raw: v.to_string() }
}

/// Relies on `serde_json::from_str`: `None` exactly when the body is not
/// valid JSON; otherwise the page holds the flattened top-level value and
/// every top-level array entry. serde_json parses and serializes a given
/// string the same way everywhere, so the result is a function of the body
/// alone, named by `page_of`.
#[verifier::external_body]
pub fn parse_page(body: &str) -> (r: Option<JsonPage>)
    ensures
        match r {
            Some(p) => page_of(body@) == Some(p@),
            None => page_of(body@) is None,
        },
{
    let v: serde_json::Value = serde_json::from_str(body).ok()?;
    let mut lists: Vec<(String, Vec<JsonElem>)> = Vec::new();
    if let Some(m) = v.as_object() {
        for (k, x) in m {
            if let Some(a) = x.as_array() {
                lists.push((k.clone(), a.iter().map(elem_of).collect()));
            }
        }
    }
    Some(JsonPage { top: elem_of(&v), lists })
}

/// The value of the first field with the given name, if any.
pub open spec fn spec_find_field(fields: Seq<(Seq<char>, PrimView)>, name: Seq<char>) -> Option<PrimView>
    decreases fields.len(),
{
    if fields.len() == 0 {
        None
    } else if fields[0].0 == name {
        Some(fields[0].1)
    } else {
        spec_find_field(fields.skip(1), name)
    }
}

/// The elements of the first list entry with the given key, if any.
pub open spec fn spec_find_list(lists: Seq<(Seq<char>, Seq<ElemView>)>, key: Seq<char>) -> Option<Seq<ElemView>>
    decreases lists.len(),
{
    if lists.len() == 0 {
        None
    } else if lists[0].0 == key {
        Some(lists[0].1)
    } else {
        spec_find_list(lists.skip(1), key)
    }
}

impl JsonElem {
    /// Looks up the first field with the given name.
    pub fn find_field(&self, name: &str) -> (r: Option<&JsonPrim>)
        ensures
            match r {
                Some(p) => spec_find_field(self@.fields, name@) == Some(p@),
                None => spec_find_field(self@.fields, name@) is None,
            },
    {
        let ghost fv = self@.fields;
        proof {
            assert(fv.skip(0) =~= fv);
        }
        let mut i: usize = 0;
        while i < self.fields.len()
            invariant
                i <= self.fields.len(),
                fv == self@.fields,
                spec_find_field(fv.skip(i as int), name@) == spec_find_field(fv, name@),
            decreases self.fields.len() - i,
        {
            if str_eq(self.fields[i].0.as_str(), name) {
                proof {
                    assert(fv.skip(i as int)[0] == fv[i as int]);
                }
                return Some(&self.fields[i].1);
            }
            proof {
                assert(fv.skip(i as int)[0] == fv[i as int]);
                assert(fv.skip(i as int).skip(1) =~= fv.skip(i as int + 1));
            }
            i += 1;
        }
        proof {
            assert(fv.skip(i as int).len() == 0);
        }
        None
    }
}

impl JsonPage {
    /// Looks up the first top-level array entry with the given key.
    pub fn find_list(&self, key: &str) -> (r: Option<&Vec<JsonElem>>)
        ensures
            match r {
                Some(v) => spec_find_list(self@.lists, key@) == Some(elems_view(v@)),
                None => spec_find_list(self@.lists, key@) is None,
            },
    {
        let ghost lv = self@.lists;
        proof {
            assert(lv.skip(0) =~= lv);
        }
        let mut i: usize = 0;
        while i < self.lists.len()
            invariant
                i <= self.lists.len(),
                lv == self@.lists,
                spec_find_list(lv.skip(i as int), key@) == spec_find_list(lv, key@),
            decreases self.lists.len() - i,
        {
            if str_eq(self.lists[i].0.as_str(), key) {
                proof {
                    assert(lv.skip(i as int)[0] == lv[i as int]);
                }
                return Some(&self.lists[i].1);
            }
            proof {
                assert(lv.skip(i as int)[0] == lv[i as int]);
                assert(lv.skip(i as int).skip(1) =~= lv.skip(i as int + 1));
            }
            i += 1;
        }
        proof {
            assert(lv.skip(i as int).len() == 0);
        }
        None
    }
}

} // verus!
