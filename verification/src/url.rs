use vstd::prelude::*;
use vstd::string::{StrSliceExecFns, StringExecFns};
use crate::quals::pairs_view;
use crate::schema::{ObjectType, spec_is_singleton, spec_path};
use crate::text::owned;

verus! {

/// The decimal digit character of `d`.
pub open spec fn spec_digit(d: int) -> char {
    if d == 0 {
        '0'
    } else if d == 1 {
        '1'
    } else if d == 2 {
        '2'
    } else if d == 3 {
        '3'
    } else if d == 4 {
        '4'
    } else if d == 5 {
        '5'
    } else if d == 6 {
        '6'
    } else if d == 7 {
        '7'
    } else if d == 8 {
        '8'
    } else {
        '9'
    }
}

/// The decimal rendering of a non-negative integer.
pub open spec fn spec_dec(n: int) -> Seq<char>
    recommends
        n >= 0,
    decreases n,
{
    if n < 10 {
        seq![spec_digit(n)]
    } else {
        spec_dec(n / 10).push(spec_digit(n % 10))
    }
}

/// One decimal digit as a string slice.
fn digit_str(d: u64) -> (r: &'static str)
    requires
        d < 10,
    ensures
        r@ == seq![spec_digit(d as int)],
{
    proof {
        reveal_strlit("0");
        reveal_strlit("1");
        reveal_strlit("2");
        reveal_strlit("3");
        reveal_strlit("4");
        reveal_strlit("5");
        reveal_strlit("6");
        reveal_strlit("7");
        reveal_strlit("8");
        reveal_strlit("9");
    }
    let r = match d {
        0 => "0",
        1 => "1",
        2 => "2",
        3 => "3",
        4 => "4",
        5 => "5",
        6 => "6",
        7 => "7",
        8 => "8",
        _ => "9",
    };
    proof {
        assert(r@ =~= seq![spec_digit(d as int)]);
    }
    r
}

/// Renders an unsigned integer in decimal.
pub fn fmt_u64(n: u64) -> (r: String)
    ensures
        r@ == spec_dec(n as int),
    decreases n,
{
    if n < 10 {
        owned(digit_str(n))
    } else {
        let mut s = fmt_u64(n / 10);
        s.append(digit_str(n % 10));
        proof {
            assert(s@ =~= spec_dec(n as int / 10).push(spec_digit(n as int % 10)));
        }
        s
    }
}

/// Joins a base URL with a path segment, inserting a separating slash when
/// the base does not already end in one.
pub open spec fn spec_join(base: Seq<char>, path: Seq<char>) -> Seq<char> {
    if base.len() > 0 && base.last() == '/' {
        base + path
    } else {
        base + "/"@ + path
    }
}

/// The query string of an ordered parameter list: empty for no parameters,
/// else `?k=v` pairs joined by `&`.
pub open spec fn spec_query(pairs: Seq<(Seq<char>, Seq<char>)>) -> Seq<char>
    decreases pairs.len(),
{
    if pairs.len() == 0 {
        Seq::empty()
    } else {
        spec_query(pairs.drop_last()) + (if pairs.len() == 1 {
            "?"@
        } else {
            "&"@
        }) + pairs.last().0 + "="@ + pairs.last().1
    }
}

/// The view of an optional cursor string.
pub open spec fn opt_str_view(c: Option<String>) -> Option<Seq<char>> {
    match c {
        Some(s) => Some(s@),
        None => None,
    }
}

/// The pagination parameters of a page request: none for a singleton object
/// type; otherwise the page size as `limit`, and the cursor as
/// `starting_after` when one is known.
pub open spec fn spec_pagination(o: ObjectType, page_size: u64, cursor: Option<Seq<char>>) -> Seq<
    (Seq<char>, Seq<char>),
> {
    if spec_is_singleton(o) {
        Seq::empty()
    } else {
        let base = seq![("limit"@, spec_dec(page_size as int))];
        match cursor {
            Some(c) => base.push(("starting_after"@, c)),
            None => base,
        }
    }
}

/// The full request URL of one page: base joined with the object path,
/// followed by the pushdown parameters and then the pagination parameters.
pub open spec fn spec_build_url(
    base: Seq<char>,
    o: ObjectType,
    params: Seq<(Seq<char>, Seq<char>)>,
    page_size: u64,
    cursor: Option<Seq<char>>,
) -> Seq<char> {
    spec_join(base, spec_path(o)) + spec_query(params + spec_pagination(o, page_size, cursor))
}

/// Whether the string ends in a slash.
fn ends_with_slash(s: &str) -> (r: bool)
    ensures
        r == (s@.len() > 0 && s@.last() == '/'),
{
    let n = s.unicode_len();
    if n == 0 {
        false
    } else {
        s.get_char(n - 1) == '/'
    }
}

/// Builds the request URL of one page.
pub fn build_url(
    base: &str,
    o: ObjectType,
    params: &Vec<(String, String)>,
    page_size: u64,
    cursor: &Option<String>,
) -> (r: String)
    ensures
        r@ == spec_build_url(base@, o, pairs_view(params@), page_size, opt_str_view(*cursor)),
{
    let ghost pv = pairs_view(params@);
    let ghost pagination = spec_pagination(o, page_size, opt_str_view(*cursor));

    let mut all: Vec<(String, String)> = Vec::new();
    let mut i: usize = 0;
    proof {
        assert(pairs_view(all@) =~= pv.take(0));
    }
    while i < params.len()
        invariant
            i <= params.len(),
            pv == pairs_view(params@),
            pairs_view(all@) == pv.take(i as int),
        decreases params.len() - i,
    {
        let ghost before = pairs_view(all@);
        all.push((params[i].0.clone(), params[i].1.clone()));
        proof {
            assert(pairs_view(all@) =~= before.push((params@[i as int].0@, params@[i as int].1@)));
            assert(pv.take(i as int + 1) =~= pv.take(i as int).push(pv[i as int]));
        }
        i += 1;
    }
    proof {
        assert(pv.take(i as int) =~= pv);
    }
    if !o.is_singleton() {
        let ghost before = pairs_view(all@);
        all.push((owned("limit"), fmt_u64(page_size)));
        proof {
            assert(pairs_view(all@) =~= before.push(("limit"@, spec_dec(page_size as int))));
        }
        match cursor {
            Some(c) => {
                let ghost mid = pairs_view(all@);
                all.push((owned("starting_after"), c.clone()));
                proof {
                    assert(pairs_view(all@) =~= mid.push(("starting_after"@, c@)));
                }
            },
            None => {},
        }
    }
    let ghost av = pairs_view(all@);
    proof {
        assert(av =~= pv + pagination);
    }

    let mut url = owned(base);
    if !ends_with_slash(base) {
        url.append("/");
    }
    url.append(o.path());
    let ghost joined = spec_join(base@, spec_path(o));
    proof {
        assert(url@ == joined);
        assert(url@ =~= joined + spec_query(av.take(0)));
    }

    let mut j: usize = 0;
    while j < all.len()
        invariant
            j <= all.len(),
            av == pairs_view(all@),
            url@ == joined + spec_query(av.take(j as int)),
        decreases all.len() - j,
    {
        if j == 0 {
            url.append("?");
        } else {
            url.append("&");
        }
        url.append(all[j].0.as_str());
        url.append("=");
        url.append(all[j].1.as_str());
        proof {
            let t = av.take(j as int + 1);
            assert(t.drop_last() =~= av.take(j as int));
            assert(t.last() == av[j as int]);
            assert(url@ =~= joined + spec_query(t));
        }
        j += 1;
    }
    proof {
        assert(av.take(j as int) =~= av);
    }
    url
}

} // verus!
