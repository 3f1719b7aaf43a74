use vstd::prelude::*;
use crate::PAGE_SIZE;
use crate::decode::{DecodedView, spec_row, spec_row_cells};
use crate::json::ElemView;
use crate::quals::spec_plan;
use crate::row::{Limit, QualView, RowView};
use crate::scan::{ScanView, spec_apply, spec_begin, under_budget};
use crate::schema::{FieldType, ObjectType, spec_fields, spec_is_singleton, spec_path, spec_pushdown_fields};
use crate::url::{spec_build_url, spec_join, spec_pagination, spec_query};

verus! {

/// The scan state after a whole run of decoded pages, fed in order.
pub open spec fn spec_drive(s: ScanView, pages: Seq<DecodedView>) -> ScanView
    decreases pages.len(),
{
    if pages.len() == 0 {
        s
    } else {
        spec_drive(spec_apply(s, pages.first()), pages.drop_first())
    }
}

/// A `count == 0` limit short-circuits the scan: right after `begin` the
/// driver asks for no page at all, and the row buffer is empty — for any
/// object type and any quals.
pub proof fn lemma_zero_count_short_circuits(
    o: ObjectType,
    quals: Seq<QualView>,
    cols: Seq<Seq<char>>,
    l: Limit,
)
    requires
        l.count == 0,
    ensures
        !under_budget(spec_begin(o, quals, cols, Some(l))),
        spec_begin(o, quals, cols, Some(l)).rows == Seq::<RowView>::empty(),
{
}

/// An empty page stops the driver, whatever the page's `has_more` said and
/// whatever the previous pages said: after it the driver asks for no further
/// page, and the buffer is left as it was.
pub proof fn lemma_empty_page_stops(s: ScanView, d: DecodedView)
    requires
        d.rows.len() == 0,
    ensures
        !under_budget(spec_apply(s, d)),
        spec_apply(s, d).rows == s.rows,
{
}

/// Over a run of non-empty pages that all signal `has_more = true` except
/// the last, which signals `has_more = false`, a scan whose page budget does
/// not cut in earlier (none, or room for the whole run) fetches exactly one
/// page per decoded page: before each of them the driver still asks for a
/// page, and immediately after the last it stops.
pub proof fn lemma_driver_visits_each_page(s: ScanView, pages: Seq<DecodedView>)
    requires
        !s.done,
        match s.budget {
            None => true,
            Some(b) => s.pages + pages.len() <= b,
        },
        pages.len() > 0,
        forall|i: int| 0 <= i < pages.len() ==> (#[trigger] pages[i]).rows.len() > 0,
        forall|i: int| 0 <= i < pages.len() - 1 ==> (#[trigger] pages[i]).has_more == Some(true),
        pages.last().has_more == Some(false),
    ensures
        forall|i: int| 0 <= i < pages.len() ==> under_budget(#[trigger] spec_drive(s, pages.take(i))),
        !under_budget(spec_drive(s, pages)),
    decreases pages.len(),
{
    assert(pages.take(0) =~= Seq::<DecodedView>::empty());
    if pages.len() == 1 {
        let s1 = spec_apply(s, pages.first());
        let rest = pages.drop_first();
        assert(rest.len() == 0);
        assert(spec_drive(s1, rest) == s1);
        assert(spec_drive(s, pages) == s1);
        assert(pages.first() == pages.last());
    } else {
        let s1 = spec_apply(s, pages.first());
        let rest = pages.drop_first();
        assert(pages.first().has_more == Some(true));
        assert(!s1.done);
        assert(match s1.budget {
            None => true,
            Some(b) => s1.pages + rest.len() <= b,
        });
        assert(rest.last() == pages.last());
        assert(forall|i: int| 0 <= i < rest.len() ==> (#[trigger] rest[i]).rows.len() > 0);
        assert forall|i: int| 0 <= i < rest.len() - 1 implies (#[trigger] rest[i]).has_more == Some(
            true,
        ) by {
            assert(rest[i] == pages[i + 1]);
        }
        lemma_driver_visits_each_page(s1, rest);
        assert forall|i: int| 0 <= i < pages.len() implies under_budget(
            #[trigger] spec_drive(s, pages.take(i)),
        ) by {
            if i == 0 {
                assert(spec_drive(s, pages.take(0)) == s);
            } else {
                assert(pages.take(i).first() == pages.first());
                assert(pages.take(i).drop_first() =~= rest.take(i - 1));
                assert(spec_drive(s, pages.take(i)) == spec_drive(s1, rest.take(i - 1)));
            }
        }
        assert(spec_drive(s, pages) == spec_drive(s1, rest));
    }
}

/// Cursor propagation: after a non-empty decoded page whose last element
/// carried an id (`d.cursor`), if the scan still asks for another page, the
/// next built URL ends in `&starting_after=` followed by exactly that id.
pub proof fn lemma_cursor_propagation(s: ScanView, d: DecodedView, base: Seq<char>)
    requires
        d.rows.len() > 0,
        d.cursor is Some,
        !spec_is_singleton(s.obj),
        under_budget(spec_apply(s, d)),
    ensures
        ({
            let s2 = spec_apply(s, d);
            let pairs = s2.params + spec_pagination(s2.obj, PAGE_SIZE, s2.cursor);
            spec_build_url(base, s2.obj, s2.params, PAGE_SIZE, s2.cursor) == spec_join(
                base,
                spec_path(s2.obj),
            ) + spec_query(pairs.drop_last()) + "&starting_after="@ + d.cursor->Some_0
        }),
{
    let s2 = spec_apply(s, d);
    assert(!s2.done);
    assert(s2.cursor == d.cursor);
    let c = d.cursor->Some_0;
    let pg = spec_pagination(s2.obj, PAGE_SIZE, s2.cursor);
    assert(pg.len() == 2);
    let pairs = s2.params + pg;
    assert(pairs.len() >= 2);
    assert(pairs.last() == ("starting_after"@, c));
    reveal_strlit("&");
    reveal_strlit("=");
    reveal_strlit("starting_after");
    reveal_strlit("&starting_after=");
    assert("&"@ + "starting_after"@ + "="@ =~= "&starting_after="@);
    let u = spec_build_url(base, s2.obj, s2.params, PAGE_SIZE, s2.cursor);
    assert(u =~= spec_join(base, spec_path(s2.obj)) + spec_query(pairs.drop_last())
        + "&starting_after="@ + c);
}

/// A singleton object type receives no pagination parameters at all: since
/// its pushdown whitelist is empty as well, every URL built for it is the
/// bare base joined with its path — no `limit=`, no `starting_after=`,
/// whatever the cursor state.
pub proof fn lemma_singleton_bare_url(
    quals: Seq<QualView>,
    base: Seq<char>,
    page_size: u64,
    cursor: Option<Seq<char>>,
)
    ensures
        spec_build_url(
            base,
            ObjectType::Balance,
            spec_plan(quals, spec_pushdown_fields(ObjectType::Balance)),
            page_size,
            cursor,
        ) == spec_join(base, "balance"@),
{
    let params = spec_plan(quals, spec_pushdown_fields(ObjectType::Balance));
    assert(params.len() == 0);
    let pairs = params + spec_pagination(ObjectType::Balance, page_size, cursor);
    assert(pairs.len() == 0);
    assert(spec_build_url(base, ObjectType::Balance, params, page_size, cursor) =~= spec_join(
        base,
        "balance"@,
    ));
}

/// Every column name of the filtered schema cells is a schema field name.
proof fn lemma_row_cells_names(fields: Seq<(Seq<char>, FieldType)>, cols: Seq<Seq<char>>, e: ElemView)
    ensures
        forall|k: int|
            0 <= k < spec_row_cells(fields, cols, e).len() ==> exists|i: int|
                0 <= i < fields.len() && fields[i].0 == (#[trigger] spec_row_cells(fields, cols, e)[k]).0,
    decreases fields.len(),
{
    if fields.len() == 0 {
    } else {
        let dl = fields.drop_last();
        lemma_row_cells_names(dl, cols, e);
        let rc = spec_row_cells(fields, cols, e);
        let rest = spec_row_cells(dl, cols, e);
        assert forall|k: int| 0 <= k < rc.len() implies exists|i: int|
            0 <= i < fields.len() && fields[i].0 == (#[trigger] rc[k]).0 by {
            if k < rest.len() {
                assert(rc[k] == rest[k]);
                let i = choose|i: int| 0 <= i < dl.len() && dl[i].0 == (#[trigger] rest[k]).0;
                assert(fields[i] == dl[i]);
            } else {
                assert(fields[fields.len() - 1].0 == rc[k].0);
            }
        }
    }
}

/// The filtered schema cells keep distinct column names when the schema's
/// field names are distinct.
proof fn lemma_row_cells_distinct(fields: Seq<(Seq<char>, FieldType)>, cols: Seq<Seq<char>>, e: ElemView)
    requires
        forall|i: int, j: int| 0 <= i < j < fields.len() ==> (#[trigger] fields[i]).0 != (#[trigger] fields[j]).0,
    ensures
        forall|i: int, j: int|
            0 <= i < j < spec_row_cells(fields, cols, e).len() ==> (#[trigger] spec_row_cells(
                fields,
                cols,
                e,
            )[i]).0 != (#[trigger] spec_row_cells(fields, cols, e)[j]).0,
    decreases fields.len(),
{
    if fields.len() == 0 {
    } else {
        let dl = fields.drop_last();
        assert forall|i: int, j: int| 0 <= i < j < dl.len() implies (#[trigger] dl[i]).0 != (
        #[trigger] dl[j]).0 by {
            assert(dl[i] == fields[i] && dl[j] == fields[j]);
        }
        lemma_row_cells_distinct(dl, cols, e);
        lemma_row_cells_names(dl, cols, e);
        let rc = spec_row_cells(fields, cols, e);
        let rest = spec_row_cells(dl, cols, e);
        if cols.contains(fields.last().0) {
            assert forall|i: int, j: int| 0 <= i < j < rc.len() implies (#[trigger] rc[i]).0 != (
            #[trigger] rc[j]).0 by {
                if j < rest.len() {
                    assert(rc[i] == rest[i] && rc[j] == rest[j]);
                } else {
                    assert(rc[i] == rest[i]);
                    let w = choose|w: int| 0 <= w < dl.len() && dl[w].0 == (#[trigger] rest[i]).0;
                    assert(fields[w] == dl[w]);
                    assert(fields[w].0 != fields[fields.len() - 1].0);
                    assert(rc[j].0 == fields.last().0);
                }
            }
        }
    }
}

/// A decoded row holds at most one entry per column name, given a schema
/// whose field names are distinct and do not claim the reserved `attrs`
/// name — which holds of every schema in the registry
/// (`lemma_registry_names_distinct`).
pub proof fn lemma_row_unique_columns(fields: Seq<(Seq<char>, FieldType)>, cols: Seq<Seq<char>>, e: ElemView)
    requires
        forall|i: int, j: int| 0 <= i < j < fields.len() ==> (#[trigger] fields[i]).0 != (#[trigger] fields[j]).0,
        forall|i: int| 0 <= i < fields.len() ==> (#[trigger] fields[i]).0 != "attrs"@,
    ensures
        forall|i: int, j: int|
            0 <= i < j < spec_row(fields, cols, e).len() ==> (#[trigger] spec_row(fields, cols, e)[i]).0
                != (#[trigger] spec_row(fields, cols, e)[j]).0,
{
    lemma_row_cells_distinct(fields, cols, e);
    lemma_row_cells_names(fields, cols, e);
    let row = spec_row(fields, cols, e);
    let base = spec_row_cells(fields, cols, e);
    if cols.contains("attrs"@) {
        assert forall|i: int, j: int| 0 <= i < j < row.len() implies (#[trigger] row[i]).0 != (
        #[trigger] row[j]).0 by {
            if j < base.len() {
                assert(row[i] == base[i] && row[j] == base[j]);
            } else {
                assert(row[i] == base[i]);
                let w = choose|w: int| 0 <= w < fields.len() && fields[w].0 == (#[trigger] base[i]).0;
                assert(row[j].0 == "attrs"@);
            }
        }
    }
}

/// Every registry schema has pairwise distinct field names, none of them the
/// reserved `attrs` name; together with `lemma_row_unique_columns` this
/// discharges the row invariant for every object type.
pub proof fn lemma_registry_names_distinct(o: ObjectType)
    ensures
        forall|i: int, j: int|
            0 <= i < j < spec_fields(o).len() ==> (#[trigger] spec_fields(o)[i]).0 != (
            #[trigger] spec_fields(o)[j]).0,
        forall|i: int| 0 <= i < spec_fields(o).len() ==> (#[trigger] spec_fields(o)[i]).0 != "attrs"@,
{
    reveal_strlit("attrs");
    reveal_strlit("id");
    reveal_strlit("amount");
    reveal_strlit("currency");
    reveal_strlit("description");
    reveal_strlit("fee");
    reveal_strlit("net");
    reveal_strlit("status");
    reveal_strlit("type");
    reveal_strlit("created");
    reveal_strlit("customer");
    reveal_strlit("invoice");
    reveal_strlit("payment_intent");
    reveal_strlit("email");
    reveal_strlit("subscription");
    reveal_strlit("total");
    reveal_strlit("period_start");
    reveal_strlit("period_end");
    reveal_strlit("payment_method");
    reveal_strlit("current_period_start");
    reveal_strlit("current_period_end");
    assert("attrs"@.len() == 5 && "id"@.len() == 2 && "amount"@.len() == 6 && "currency"@.len() == 8
        && "description"@.len() == 11 && "fee"@.len() == 3 && "net"@.len() == 3 && "status"@.len() == 6
        && "type"@.len() == 4 && "created"@.len() == 7 && "customer"@.len() == 8 && "invoice"@.len() == 7
        && "payment_intent"@.len() == 14 && "email"@.len() == 5 && "subscription"@.len() == 12
        && "total"@.len() == 5 && "period_start"@.len() == 12 && "period_end"@.len() == 10
        && "payment_method"@.len() == 14 && "current_period_start"@.len() == 20
        && "current_period_end"@.len() == 18);
    assert("attrs"@[0] == 'a' && "amount"@[0] == 'a' && "status"@[0] == 's' && "fee"@[0] == 'f'
        && "net"@[0] == 'n' && "invoice"@[0] == 'i' && "created"@[0] == 'c' && "email"@[0] == 'e'
        && "total"@[0] == 't' && "subscription"@[0] == 's' && "period_start"@[0] == 'p');
    assert("attrs"@[1] == 't' && "amount"@[1] == 'm');
    assert("customer"@[2] == 's' && "currency"@[2] == 'r');
    assert("customer"@ != "currency"@);
    assert("amount"@ != "status"@);
    assert("fee"@ != "net"@);
    assert("invoice"@ != "created"@);
    assert("subscription"@ != "period_start"@);
    assert("attrs"@ != "email"@ && "attrs"@ != "total"@ && "attrs"@ != "amount"@);
}

} // verus!
