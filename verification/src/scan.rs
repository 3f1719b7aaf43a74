use vstd::prelude::*;
use vstd::arithmetic::div_mod::{lemma_div_is_ordered, lemma_fundamental_div_mod_converse};
use crate::PAGE_SIZE;
use crate::decode::{DecodedView, resp_to_rows, spec_decode};
use crate::error::FdwError;
use crate::json::page_of;
use crate::quals::{pairs_view, pushdown_quals, spec_plan};
use crate::row::{Limit, Qual, Row, RowView, quals_view, rows_view};
use crate::schema::{ObjectSchema, ObjectType, lookup, spec_parse_object, spec_pushdown_fields};
use crate::text::cols_view;
use crate::url::{build_url, opt_str_view, spec_build_url};

verus! {

/// The page budget of a scan: `None` means "drive until exhaustion"; zero
/// means an empty scan with no fetch at all; otherwise one page more than
/// the requested row window needs, fetching strictly more rows than needed
/// rather than fewer and leaving row-level slicing to the caller.
pub open spec fn spec_budget(limit: Option<Limit>) -> Option<u64> {
    match limit {
        None => None,
        Some(l) => if l.count == 0 {
            Some(0u64)
        } else {
            Some((((l.offset + l.count) / (PAGE_SIZE as int)) + 1) as u64)
        },
    }
}

/// The state of one scan between page fetches.
#[verifier::ext_equal]
pub struct ScanView {
    pub obj: ObjectType,
    pub params: Seq<(Seq<char>, Seq<char>)>,
    pub cols: Seq<Seq<char>>,
    pub budget: Option<u64>,
    pub pages: u64,
    pub cursor: Option<Seq<char>>,
    pub rows: Seq<RowView>,
    pub done: bool,
}

/// The scan state right after `begin`, before any page was fetched.
pub open spec fn spec_begin(
    o: ObjectType,
    quals: Seq<crate::row::QualView>,
    cols: Seq<Seq<char>>,
    limit: Option<Limit>,
) -> ScanView {
    ScanView {
        obj: o,
        params: spec_plan(quals, spec_pushdown_fields(o)),
        cols: cols,
        budget: spec_budget(limit),
        pages: 0,
        cursor: None,
        rows: Seq::empty(),
        done: false,
    }
}

/// Whether the driver still asks for a page: not stopped, and the page
/// budget not yet consumed.
pub open spec fn under_budget(s: ScanView) -> bool {
    &&& !s.done
    &&& match s.budget {
        None => true,
        Some(b) => s.pages < b,
    }
}

/// The scan state after one successfully decoded page: an empty page stops
/// the scan; otherwise its rows are appended, and either a `has_more=false`
/// signal stops the scan, or the cursor advances to the page's cursor and
/// one more page is counted.
pub open spec fn spec_apply(s: ScanView, d: DecodedView) -> ScanView {
    if d.rows.len() == 0 {
        ScanView { done: true, ..s }
    } else if d.has_more == Some(false) {
        ScanView { rows: s.rows + d.rows, done: true, ..s }
    } else {
        ScanView {
            rows: s.rows + d.rows,
            cursor: d.cursor,
            pages: if s.pages < u64::MAX {
                (s.pages + 1) as u64
            } else {
                s.pages
            },
            ..s
        }
    }
}

/// The scan state after an aborted page fetch: stopped, with the buffer
/// dropped so that a truncated result is never mistaken for a complete one.
pub open spec fn spec_abort(s: ScanView) -> ScanView {
    ScanView { rows: Seq::empty(), done: true, ..s }
}

/// One scan in progress: the resolved schema, the planned pushdown
/// parameters, the requested columns, the page budget, and the pagination
/// state with the materialized row buffer.
pub struct Scan {
    pub schema: ObjectSchema,
    pub params: Vec<(String, String)>,
    pub cols: Vec<String>,
    pub budget: Option<u64>,
    pub pages: u64,
    pub cursor: Option<String>,
    pub rows: Vec<Row>,
    pub done: bool,
}

impl View for Scan {
    type V = ScanView;

    open spec fn view(&self) -> ScanView {
        ScanView {
            obj: self.schema.obj,
            params: pairs_view(self.params@),
            cols: cols_view(self.cols@),
            budget: self.budget,
            pages: self.pages,
            cursor: opt_str_view(self.cursor),
            rows: rows_view(self.rows@),
            done: self.done,
        }
    }
}

/// Copies a column list, keeping its views.
fn clone_cols(cols: &Vec<String>) -> (r: Vec<String>)
    ensures
        cols_view(r@) == cols_view(cols@),
{
    let mut r: Vec<String> = Vec::new();
    proof {
        assert(cols_view(r@) =~= cols_view(cols@).take(0));
    }
    let mut i: usize = 0;
    while i < cols.len()
        invariant
            i <= cols.len(),
            cols_view(r@) == cols_view(cols@).take(i as int),
        decreases cols.len() - i,
    {
        let ghost before = cols_view(r@);
        r.push(cols[i].clone());
        proof {
            assert(cols_view(r@) =~= before.push(cols@[i as int]@));
            assert(cols_view(cols@).take(i as int + 1) =~= before.push(cols@[i as int]@));
        }
        i += 1;
    }
    proof {
        assert(cols_view(cols@).take(i as int) =~= cols_view(cols@));
    }
    r
}

impl Scan {
    /// The schema record still matches the registry.
    pub open spec fn wf(&self) -> bool {
        self.schema.wf()
    }

    /// Starts a scan: resolves the object type (failing with
    /// `UnknownObject` before anything is fetched), plans the pushdown
    /// parameters, and computes the page budget.
    pub fn begin(obj_name: &str, quals: &Vec<Qual>, tgt_cols: &Vec<String>, limit: &Option<Limit>) -> (r:
        Result<Scan, FdwError>)
        ensures
            match spec_parse_object(obj_name@) {
                None => r is Err && r->Err_0 == FdwError::UnknownObject,
                Some(o) => r is Ok && r->Ok_0.wf() && r->Ok_0@ == spec_begin(
                    o,
                    quals_view(quals@),
                    cols_view(tgt_cols@),
                    *limit,
                ),
            },
    {
        let schema = match lookup(obj_name) {
            Ok(s) => s,
            Err(e) => {
                return Err(e);
            },
        };
        let params = pushdown_quals(quals, &schema.pushdown);
        let cols = clone_cols(tgt_cols);
        let budget: Option<u64> = match limit {
            None => None,
            Some(l) => if l.count == 0 {
                Some(0u64)
            } else {
                let total: u128 = (l.offset as u128) + (l.count as u128);
                let b: u128 = total / (PAGE_SIZE as u128) + 1;
                proof {
                    let t = l.offset as int + l.count as int;
                    assert(t <= 36893488147419103230int);
                    lemma_div_is_ordered(t, 36893488147419103230int, PAGE_SIZE as int);
                    lemma_fundamental_div_mod_converse(
                        36893488147419103230int,
                        100,
                        368934881474191032int,
                        30,
                    );
                    assert(t / (PAGE_SIZE as int) + 1 <= 368934881474191033int);
                }
                Some(b as u64)
            },
        };
        let s = Scan {
            schema,
            params,
            cols,
            budget,
            pages: 0,
            cursor: None,
            rows: Vec::new(),
            done: false,
        };
        proof {
            assert(rows_view(s.rows@) =~= Seq::<RowView>::empty());
            assert(s@ =~= spec_begin(
                s.schema.obj,
                quals_view(quals@),
                cols_view(tgt_cols@),
                *limit,
            ));
        }
        Ok(s)
    }

    /// Whether the driver still asks for a page.
    pub fn wants_fetch(&self) -> (r: bool)
        ensures
            r == under_budget(self@),
    {
        if self.done {
            false
        } else {
            match self.budget {
                None => true,
                Some(b) => self.pages < b,
            }
        }
    }

    /// The URL of the next page to fetch, or nothing once the scan is over
    /// budget or stopped.
    pub fn next_url(&self, base: &str) -> (r: Option<String>)
        ensures
            match r {
                Some(u) => under_budget(self@) && u@ == spec_build_url(
                    base@,
                    self@.obj,
                    self@.params,
                    PAGE_SIZE,
                    self@.cursor,
                ),
                None => !under_budget(self@),
            },
    {
        if self.wants_fetch() {
            Some(build_url(base, self.schema.obj, &self.params, PAGE_SIZE, &self.cursor))
        } else {
            None
        }
    }

    /// Feeds the body of the page fetched from the last `next_url` back into
    /// the scan. A body that does not decode aborts the whole scan with
    /// `MalformedResponse` and drops the buffer; a decoded page advances the
    /// state as [`spec_apply`] says.
    pub fn feed_page(&mut self, body: &str) -> (r: Result<(), FdwError>)
        requires
            old(self).wf(),
            under_budget(old(self)@),
        ensures
            final(self).wf(),
            match page_of(body@) {
                None => r is Err && r->Err_0 == FdwError::MalformedResponse && final(self)@
                    == spec_abort(old(self)@),
                Some(p) => match spec_decode(p, old(self)@.obj, old(self)@.cols) {
                    None => r is Err && r->Err_0 == FdwError::MalformedResponse && final(self)@
                        == spec_abort(old(self)@),
                    Some(d) => r is Ok && final(self)@ == spec_apply(old(self)@, d),
                },
            },
    {
        let decoded = match resp_to_rows(body, &self.schema, &self.cols) {
            Ok(d) => d,
            Err(e) => {
                self.rows = Vec::new();
                self.done = true;
                proof {
                    assert(rows_view(self.rows@) =~= Seq::<RowView>::empty());
                    assert(self@ =~= spec_abort(old(self)@));
                }
                return Err(e);
            },
        };
        let ghost d = decoded@;
        if decoded.rows.len() == 0 {
            self.done = true;
            proof {
                assert(self@ =~= spec_apply(old(self)@, d));
            }
            return Ok(());
        }
        let ghost rows_before = rows_view(self.rows@);
        let mut fresh = decoded.rows;
        self.rows.append(&mut fresh);
        proof {
            assert(rows_view(self.rows@) =~= rows_before + d.rows);
        }
        match decoded.has_more {
            Some(false) => {
                self.done = true;
            },
            _ => {
                self.cursor = decoded.cursor;
                if self.pages < u64::MAX {
                    self.pages = self.pages + 1;
                }
            },
        }
        proof {
            assert(self@ =~= spec_apply(old(self)@, d));
        }
        Ok(())
    }

    /// Pops the next buffered row, front first; nothing once the buffer is
    /// empty.
    pub fn next_row(&mut self) -> (r: Option<Row>)
        ensures
            final(self).wf() == old(self).wf(),
            if old(self)@.rows.len() > 0 {
                &&& r is Some
                &&& r->0@ == old(self)@.rows[0]
                &&& final(self)@ == ScanView { rows: old(self)@.rows.drop_first(), ..old(self)@ }
            } else {
                r is None && final(self)@ == old(self)@
            },
    {
        if self.rows.len() > 0 {
            let row = self.rows.remove(0);
            proof {
                assert(rows_view(self.rows@) =~= old(self)@.rows.drop_first());
                assert(self@ =~= ScanView { rows: old(self)@.rows.drop_first(), ..old(self)@ });
            }
            Some(row)
        } else {
            proof {
                assert(self@ =~= old(self)@);
            }
            None
        }
    }
}

} // verus!
