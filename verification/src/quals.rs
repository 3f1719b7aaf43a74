use vstd::prelude::*;
use crate::row::{Cell, CellView, Qual, QualValue, QualView, ValueView, quals_view};
use crate::text::{cols_view, str_eq};

verus! {

/// The text a qual pushes down for field `f`: its compared value, provided
/// the qual is on `f`, uses the `=` operator, sits under no disjunction, and
/// compares against a scalar text value. Everything else is left for the
/// caller to re-apply.
pub open spec fn spec_pushdown_value(q: QualView, f: Seq<char>) -> Option<Seq<char>> {
    if q.field == f && q.operator == "="@ && !q.use_or {
        match q.value {
            ValueView::Cell(CellView::Text(s)) => Some(s),
            _ => None,
        }
    } else {
        None
    }
}

/// The value of the first qual that pushes down for field `f`, if any.
pub open spec fn spec_first_match(quals: Seq<QualView>, f: Seq<char>) -> Option<Seq<char>>
    decreases quals.len(),
{
    if quals.len() == 0 {
        None
    } else if spec_pushdown_value(quals[0], f) is Some {
        spec_pushdown_value(quals[0], f)
    } else {
        spec_first_match(quals.skip(1), f)
    }
}

/// The planned query parameters: the eligible fields in their whitelist
/// order, each paired with the value of its first matching qual; fields
/// without a match are silently skipped.
pub open spec fn spec_plan(quals: Seq<QualView>, fields: Seq<Seq<char>>) -> Seq<(Seq<char>, Seq<char>)>
    decreases fields.len(),
{
    if fields.len() == 0 {
        Seq::empty()
    } else {
        let rest = spec_plan(quals, fields.drop_last());
        match spec_first_match(quals, fields.last()) {
            Some(v) => rest.push((fields.last(), v)),
            None => rest,
        }
    }
}

/// The views of a parameter list.
pub open spec fn pairs_view(s: Seq<(String, String)>) -> Seq<(Seq<char>, Seq<char>)> {
    Seq::new(s.len(), |i: int| (s[i].0@, s[i].1@))
}

/// Finds the first qual that pushes down for field `f`.
fn first_match(quals: &Vec<Qual>, f: &str) -> (r: Option<String>)
    ensures
        match r {
            Some(v) => spec_first_match(quals_view(quals@), f@) == Some(v@),
            None => spec_first_match(quals_view(quals@), f@) is None,
        },
{
    let ghost qv = quals_view(quals@);
    proof {
        assert(qv.skip(0) =~= qv);
    }
    let mut i: usize = 0;
    while i < quals.len()
        invariant
            i <= quals.len(),
            qv == quals_view(quals@),
            spec_first_match(qv.skip(i as int), f@) == spec_first_match(qv, f@),
        decreases quals.len() - i,
    {
        proof {
            assert(qv.skip(i as int)[0] == qv[i as int]);
        }
        let q = &quals[i];
        if str_eq(q.field.as_str(), f) && str_eq(q.operator.as_str(), "=") && !q.use_or {
            if let QualValue::Cell(Cell::Text(s)) = &q.value {
                return Some(s.clone());
            }
        }
        proof {
            assert(spec_pushdown_value(qv[i as int], f@) is None);
            assert(qv.skip(i as int).skip(1) =~= qv.skip(i as int + 1));
        }
        i += 1;
    }
    proof {
        assert(qv.skip(i as int).len() == 0);
    }
    None
}

/// Plans the pushdown parameters: walks the whitelisted fields in order and
/// emits one `(field, value)` pair per field that has a matching equality
/// qual. Later quals on the same field are ignored, and absence of a match
/// is silent.
pub fn pushdown_quals(quals: &Vec<Qual>, fields: &Vec<String>) -> (r: Vec<(String, String)>)
    ensures
        pairs_view(r@) == spec_plan(quals_view(quals@), cols_view(fields@)),
{
    let ghost qv = quals_view(quals@);
    let ghost fv = cols_view(fields@);
    let mut r: Vec<(String, String)> = Vec::new();
    proof {
        assert(fv.take(0) =~= Seq::<Seq<char>>::empty());
        assert(pairs_view(r@) =~= spec_plan(qv, fv.take(0)));
    }
    let mut i: usize = 0;
    while i < fields.len()
        invariant
            i <= fields.len(),
            qv == quals_view(quals@),
            fv == cols_view(fields@),
            pairs_view(r@) == spec_plan(qv, fv.take(i as int)),
        decreases fields.len() - i,
    {
        let ghost before = pairs_view(r@);
        let f = &fields[i];
        match first_match(quals, f.as_str()) {
            Some(v) => {
                r.push((f.clone(), v));
                proof {
                    assert(pairs_view(r@) =~= before.push((f@, spec_first_match(qv, f@)->Some_0)));
                }
            },
            None => {},
        }
        proof {
            assert(fv.take(i as int + 1).drop_last() =~= fv.take(i as int));
            assert(fv.take(i as int + 1).last() == fv[i as int]);
        }
        i += 1;
    }
    proof {
        assert(fv.take(i as int) =~= fv);
    }
    r
}

/// Nothing is pushed down that no qual asked for: every planned parameter
/// `(f, v)` comes from some qual on field `f` with operator `=`, no
/// disjunction, and scalar text value `v`.
pub proof fn lemma_plan_sound(quals: Seq<QualView>, fields: Seq<Seq<char>>)
    ensures
        forall|j: int|
            0 <= j < spec_plan(quals, fields).len() ==> exists|i: int|
                0 <= i < quals.len() && spec_pushdown_value(quals[i], #[trigger] spec_plan(quals, fields)[j].0)
                    == Some(spec_plan(quals, fields)[j].1),
    decreases fields.len(),
{
    if fields.len() == 0 {
    } else {
        lemma_plan_sound(quals, fields.drop_last());
        match spec_first_match(quals, fields.last()) {
            Some(v) => {
                lemma_first_match_found(quals, fields.last());
                let plan = spec_plan(quals, fields);
                let rest = spec_plan(quals, fields.drop_last());
                assert forall|j: int| 0 <= j < plan.len() implies exists|i: int|
                    0 <= i < quals.len() && spec_pushdown_value(quals[i], #[trigger] plan[j].0)
                        == Some(plan[j].1) by {
                    if j < rest.len() {
                        assert(plan[j] == rest[j]);
                    } else {
                        assert(plan[j] == (fields.last(), v));
                    }
                }
            },
            None => {},
        }
    }
}

/// A first match reported for field `f` really stands among the quals.
pub proof fn lemma_first_match_found(quals: Seq<QualView>, f: Seq<char>)
    requires
        spec_first_match(quals, f) is Some,
    ensures
        exists|i: int|
            0 <= i < quals.len() && spec_pushdown_value(#[trigger] quals[i], f)
                == spec_first_match(quals, f),
    decreases quals.len(),
{
    if spec_pushdown_value(quals[0], f) is Some {
    } else {
        lemma_first_match_found(quals.skip(1), f);
        let i = choose|i: int|
            0 <= i < quals.skip(1).len() && spec_pushdown_value(#[trigger] quals.skip(1)[i], f)
                == spec_first_match(quals.skip(1), f);
        assert(quals.skip(1)[i] == quals[i + 1]);
    }
}

/// A field with some matching qual is pushed down: if the whitelist holds
/// `f` and some qual pushes down for `f`, the plan holds a parameter for `f`.
pub proof fn lemma_plan_complete(quals: Seq<QualView>, fields: Seq<Seq<char>>, f: Seq<char>)
    requires
        fields.contains(f),
        exists|i: int| 0 <= i < quals.len() && spec_pushdown_value(#[trigger] quals[i], f) is Some,
    ensures
        exists|j: int| 0 <= j < spec_plan(quals, fields).len() && (#[trigger] spec_plan(quals, fields)[j]).0 == f,
    decreases fields.len(),
{
    lemma_first_match_some(quals, f);
    let plan = spec_plan(quals, fields);
    let rest = spec_plan(quals, fields.drop_last());
    if fields.last() == f {
        match spec_first_match(quals, f) {
            Some(v) => {
                assert(plan[plan.len() - 1].0 == f);
            },
            None => {},
        }
    } else {
        assert(fields.drop_last().contains(f)) by {
            let k = choose|k: int| 0 <= k < fields.len() && fields[k] == f;
            assert(fields.drop_last()[k] == f);
        }
        lemma_plan_complete(quals, fields.drop_last(), f);
        let j = choose|j: int| 0 <= j < rest.len() && (#[trigger] rest[j]).0 == f;
        assert(plan[j].0 == f);
    }
}

/// If some qual pushes down for `f`, the first-match scan finds one.
pub proof fn lemma_first_match_some(quals: Seq<QualView>, f: Seq<char>)
    requires
        exists|i: int| 0 <= i < quals.len() && spec_pushdown_value(#[trigger] quals[i], f) is Some,
    ensures
        spec_first_match(quals, f) is Some,
    decreases quals.len(),
{
    if spec_pushdown_value(quals[0], f) is Some {
    } else {
        let i = choose|i: int| 0 <= i < quals.len() && spec_pushdown_value(#[trigger] quals[i], f) is Some;
        assert(quals.skip(1)[i - 1] == quals[i]);
        lemma_first_match_some(quals.skip(1), f);
    }
}

} // verus!
