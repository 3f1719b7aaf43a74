use vstd::prelude::*;
use crate::error::FdwError;
use crate::json::{
    ElemView, JsonElem, JsonPage, JsonPrim, PageView, PrimView, elems_view, page_of, parse_page,
    spec_find_field, spec_find_list,
};
use crate::row::{Cell, CellView, Row, RowView, opt_cell_view, rows_view};
use crate::schema::{FieldType, ObjectSchema, ObjectType, fields_view, spec_fields, spec_is_singleton, spec_obj_key};
use crate::text::{col_requested, cols_view, owned};
use crate::url::opt_str_view;

verus! {

/// The cell a field value yields under a semantic type: an integer field
/// fills `Int64` or `Timestamp` cells, a string field fills `Text` cells;
/// any other combination yields no cell.
pub open spec fn spec_cell(ft: FieldType, p: PrimView) -> Option<CellView> {
    match ft {
        FieldType::Int64 => match p {
            PrimView::Int(v) => Some(CellView::Int64(v)),
            _ => None,
        },
        FieldType::Text => match p {
            PrimView::Text(s) => Some(CellView::Text(s)),
            _ => None,
        },
        FieldType::Timestamp => match p {
            PrimView::Int(v) => Some(CellView::Timestamp(v)),
            _ => None,
        },
    }
}

/// The cell extracted from an element for one schema field: absent when the
/// field is missing or of the wrong shape — the decoder is lenient at the
/// field level.
pub open spec fn spec_elem_cell(e: ElemView, name: Seq<char>, ft: FieldType) -> Option<CellView> {
    match spec_find_field(e.fields, name) {
        Some(p) => spec_cell(ft, p),
        None => None,
    }
}

/// The columns of one row: the schema fields in order, filtered to the
/// requested columns, each with its extracted cell.
pub open spec fn spec_row_cells(
    fields: Seq<(Seq<char>, FieldType)>,
    cols: Seq<Seq<char>>,
    e: ElemView,
) -> RowView
    decreases fields.len(),
{
    if fields.len() == 0 {
        Seq::empty()
    } else {
        let rest = spec_row_cells(fields.drop_last(), cols, e);
        if cols.contains(fields.last().0) {
            rest.push((fields.last().0, spec_elem_cell(e, fields.last().0, fields.last().1)))
        } else {
            rest
        }
    }
}

/// One decoded row: the filtered schema columns, plus the whole raw element
/// under the synthetic `attrs` column when that column was requested.
pub open spec fn spec_row(fields: Seq<(Seq<char>, FieldType)>, cols: Seq<Seq<char>>, e: ElemView) -> RowView {
    let base = spec_row_cells(fields, cols, e);
    if cols.contains("attrs"@) {
        base.push(("attrs"@, Some(CellView::Json(e.raw))))
    } else {
        base
    }
}

/// All rows of a page, one per element, in element order.
pub open spec fn spec_rows(
    fields: Seq<(Seq<char>, FieldType)>,
    cols: Seq<Seq<char>>,
    elems: Seq<ElemView>,
) -> Seq<RowView> {
    Seq::new(elems.len(), |i: int| spec_row(fields, cols, elems[i]))
}

/// The `id` of an element as text, if it carries one.
pub open spec fn spec_elem_id(e: ElemView) -> Option<Seq<char>> {
    match spec_find_field(e.fields, "id"@) {
        Some(PrimView::Text(s)) => Some(s),
        _ => None,
    }
}

/// The pagination cursor a page yields: the `id` of its last element, or
/// nothing for an empty page. The cursor is opaque — it is only ever echoed
/// back to the upstream API.
pub open spec fn spec_cursor(elems: Seq<ElemView>) -> Option<Seq<char>> {
    if elems.len() == 0 {
        None
    } else {
        spec_elem_id(elems.last())
    }
}

/// The top-level `has_more` flag of a page, when present as a boolean;
/// absent means "unknown — decide by page emptiness alone".
pub open spec fn spec_has_more(p: PageView) -> Option<bool> {
    match spec_find_field(p.top.fields, "has_more"@) {
        Some(PrimView::Flag(b)) => Some(b),
        _ => None,
    }
}

/// The elements a page holds for an object type: the whole top-level value
/// as a one-element virtual collection for a singleton type, else the array
/// under the type's response key; `None` when that key is missing or holds
/// no array (a malformed response).
pub open spec fn spec_elements(p: PageView, o: ObjectType) -> Option<Seq<ElemView>> {
    if spec_is_singleton(o) {
        Some(seq![p.top])
    } else {
        spec_find_list(p.lists, spec_obj_key(o))
    }
}

/// What decoding a well-formed page yields: the rows, the next cursor, and
/// the continuation flag; `None` for a malformed response.
pub open spec fn spec_decode(p: PageView, o: ObjectType, cols: Seq<Seq<char>>) -> Option<
    DecodedView,
> {
    match spec_elements(p, o) {
        Some(es) => Some(
            DecodedView {
                rows: spec_rows(spec_fields(o), cols, es),
                cursor: spec_cursor(es),
                has_more: spec_has_more(p),
            },
        ),
        None => None,
    }
}

/// One decoded page: its rows, the cursor to request the next page with,
/// and the upstream continuation flag.
pub struct DecodedPage {
    pub rows: Vec<Row>,
    pub cursor: Option<String>,
    pub has_more: Option<bool>,
}

/// The mathematical value of a [`DecodedPage`].
pub struct DecodedView {
    pub rows: Seq<RowView>,
    pub cursor: Option<Seq<char>>,
    pub has_more: Option<bool>,
}

impl View for DecodedPage {
    type V = DecodedView;

    open spec fn view(&self) -> DecodedView {
        DecodedView {
            rows: rows_view(self.rows@),
            cursor: opt_str_view(self.cursor),
            has_more: self.has_more,
        }
    }
}

/// Extracts the cell of one schema field from one element.
fn extract_cell(e: &JsonElem, name: &str, ft: FieldType) -> (c: Option<Cell>)
    ensures
        opt_cell_view(c) == spec_elem_cell(e@, name@, ft),
{
    match e.find_field(name) {
        None => None,
        Some(p) => match ft {
            FieldType::Int64 => match p {
                JsonPrim::Int(v) => Some(Cell::Int64(*v)),
                _ => None,
            },
            FieldType::Text => match p {
                JsonPrim::Text(s) => Some(Cell::Text(s.clone())),
                _ => None,
            },
            FieldType::Timestamp => match p {
                JsonPrim::Int(v) => Some(Cell::Timestamp(*v)),
                _ => None,
            },
        },
    }
}

/// Decodes one element into one row under a schema and a requested column
/// list.
fn decode_elem(e: &JsonElem, schema: &ObjectSchema, tgt_cols: &Vec<String>) -> (r: Row)
    ensures
        r@ == spec_row(fields_view(schema.fields@), cols_view(tgt_cols@), e@),
{
    let ghost fv = fields_view(schema.fields@);
    let ghost cv = cols_view(tgt_cols@);
    let mut row = Row::new();
    proof {
        assert(fv.take(0) =~= Seq::<(Seq<char>, FieldType)>::empty());
    }
    let mut i: usize = 0;
    while i < schema.fields.len()
        invariant
            i <= schema.fields.len(),
            fv == fields_view(schema.fields@),
            cv == cols_view(tgt_cols@),
            row@ == spec_row_cells(fv.take(i as int), cv, e@),
        decreases schema.fields.len() - i,
    {
        let pair = &schema.fields[i];
        if col_requested(tgt_cols, pair.0.as_str()) {
            let cell = extract_cell(e, pair.0.as_str(), pair.1);
            row.push(pair.0.clone(), cell);
        }
        proof {
            assert(fv.take(i as int + 1).drop_last() =~= fv.take(i as int));
            assert(fv.take(i as int + 1).last() == fv[i as int]);
        }
        i += 1;
    }
    proof {
        assert(fv.take(i as int) =~= fv);
    }
    if col_requested(tgt_cols, "attrs") {
        row.push(owned("attrs"), Some(Cell::Json(e.raw.clone())));
    }
    row
}

/// The `id` of an element as an owned cursor string.
fn elem_id(e: &JsonElem) -> (r: Option<String>)
    ensures
        opt_str_view(r) == spec_elem_id(e@),
{
    match e.find_field("id") {
        Some(p) => match p {
            JsonPrim::Text(s) => Some(s.clone()),
            _ => None,
        },
        None => None,
    }
}

/// The top-level `has_more` flag of a page.
fn page_has_more(p: &JsonPage) -> (r: Option<bool>)
    ensures
        r == spec_has_more(p@),
{
    match p.top.find_field("has_more") {
        Some(f) => match f {
            JsonPrim::Flag(b) => Some(*b),
            _ => None,
        },
        None => None,
    }
}

/// Decodes a parsed page into rows, the next cursor, and the continuation
/// flag, failing with `MalformedResponse` when the page does not hold the
/// collection the schema expects.
pub fn extract_to_rows(page: &JsonPage, schema: &ObjectSchema, tgt_cols: &Vec<String>) -> (r: Result<
    DecodedPage,
    FdwError,
>)
    requires
        schema.wf(),
    ensures
        match spec_decode(page@, schema.obj, cols_view(tgt_cols@)) {
            Some(d) => r is Ok && r->Ok_0@ == d,
            None => r is Err && r->Err_0 == FdwError::MalformedResponse,
        },
{
    let ghost cv = cols_view(tgt_cols@);
    let ghost fv = spec_fields(schema.obj);
    if schema.obj.is_singleton() {
        let mut rows: Vec<Row> = Vec::new();
        let row = decode_elem(&page.top, schema, tgt_cols);
        rows.push(row);
        let cursor = elem_id(&page.top);
        let has_more = page_has_more(page);
        let ghost es = seq![page@.top];
        proof {
            assert(rows_view(rows@) =~= spec_rows(fv, cv, es));
            assert(es.last() == page@.top);
        }
        Ok(DecodedPage { rows, cursor, has_more })
    } else {
        match page.find_list(schema.obj_key.as_str()) {
            None => Err(FdwError::MalformedResponse),
            Some(elems) => {
                let ghost es = elems_view(elems@);
                let mut rows: Vec<Row> = Vec::new();
                proof {
                    assert(rows_view(rows@) =~= spec_rows(fv, cv, es.take(0)));
                }
                let mut k: usize = 0;
                while k < elems.len()
                    invariant
                        k <= elems.len(),
                        es == elems_view(elems@),
                        fv == spec_fields(schema.obj),
                        cv == cols_view(tgt_cols@),
                        schema.wf(),
                        rows_view(rows@) == spec_rows(fv, cv, es.take(k as int)),
                    decreases elems.len() - k,
                {
                    let ghost before = rows_view(rows@);
                    proof {
                        assert(es.len() == elems@.len());
                        assert(before.len() == rows@.len());
                        assert(spec_rows(fv, cv, es.take(k as int)).len() == k as int);
                        assert(rows@.len() == k);
                    }
                    let row = decode_elem(&elems[k], schema, tgt_cols);
                    rows.push(row);
                    proof {
                        assert(es[k as int] == elems@[k as int]@);
                        assert(rows@[k as int]@ == spec_row(fv, cv, es[k as int]));
                        assert forall|j: int| 0 <= j < k implies rows_view(rows@)[j] == spec_rows(
                            fv,
                            cv,
                            es.take(k as int + 1),
                        )[j] by {
                            assert(rows_view(rows@)[j] == before[j]);
                            assert(before[j] == spec_rows(fv, cv, es.take(k as int))[j]);
                            assert(es.take(k as int)[j] == es[j]);
                            assert(es.take(k as int + 1)[j] == es[j]);
                        }
                        assert(rows_view(rows@) =~= spec_rows(fv, cv, es.take(k as int + 1)));
                    }
                    k += 1;
                }
                proof {
                    assert(es.take(k as int) =~= es);
                }
                let cursor = if elems.len() > 0 {
                    let last = &elems[elems.len() - 1];
                    proof {
                        assert(es.last() == last@);
                    }
                    elem_id(last)
                } else {
                    None
                };
                let has_more = page_has_more(page);
                Ok(DecodedPage { rows, cursor, has_more })
            },
        }
    }
}

/// Parses a raw response body and decodes it for an object type, failing
/// with `MalformedResponse` when the body is not valid JSON or does not hold
/// the expected collection. No partial decode: a page either decodes whole
/// or aborts the scan.
pub fn resp_to_rows(body: &str, schema: &ObjectSchema, tgt_cols: &Vec<String>) -> (r: Result<
    DecodedPage,
    FdwError,
>)
    requires
        schema.wf(),
    ensures
        match page_of(body@) {
            None => r is Err && r->Err_0 == FdwError::MalformedResponse,
            Some(p) => match spec_decode(p, schema.obj, cols_view(tgt_cols@)) {
                Some(d) => r is Ok && r->Ok_0@ == d,
                None => r is Err && r->Err_0 == FdwError::MalformedResponse,
            },
        },
{
    match parse_page(body) {
        None => Err(FdwError::MalformedResponse),
        Some(page) => extract_to_rows(&page, schema, tgt_cols),
    }
}

} // verus!
