use vstd::prelude::*;
use vstd::string::StringExecFns;

verus! {

/// Equality of two string slices, reflected as equality of their views.
pub fn str_eq(a: &str, b: &str) -> (r: bool)
    ensures
        r == (a@ == b@),
{
    let sa: String = a.to_owned();
    let sb: String = b.to_owned();
    sa == sb
}

/// The views of a sequence of owned strings.
pub open spec fn cols_view(s: Seq<String>) -> Seq<Seq<char>> {
    Seq::new(s.len(), |i: int| s[i]@)
}

/// Whether `name` occurs among the requested column names.
pub fn col_requested(cols: &Vec<String>, name: &str) -> (r: bool)
    ensures
        r == cols_view(cols@).contains(name@),
{
    let ghost cv = cols_view(cols@);
    let mut i: usize = 0;
    while i < cols.len()
        invariant
            i <= cols.len(),
            cv == cols_view(cols@),
            forall|k: int| 0 <= k < i ==> cv[k] != name@,
        decreases cols.len() - i,
    {
        if str_eq(cols[i].as_str(), name) {
            assert(cv[i as int] == name@);
            return true;
        }
        i += 1;
    }
    assert(forall|k: int| 0 <= k < cv.len() ==> cv[k] != name@);
    false
}

/// Builds an owned string from a slice, keeping its view.
pub fn owned(s: &str) -> (r: String)
    ensures
        r@ == s@,
{
    String::from_str(s)
}

} // verus!
