use vstd::prelude::*;
use vstd::string::StrSliceExecFns;
use crate::PAGE_SIZE;
use crate::decode::spec_decode;
use crate::error::FdwError;
use crate::json::page_of;
use crate::row::{Limit, Qual, Row, quals_view};
use crate::scan::{Scan, ScanView, spec_abort, spec_apply, spec_begin, under_budget};
use crate::schema::spec_parse_object;
use crate::text::{cols_view, owned, str_eq};
use crate::url::{opt_str_view, spec_build_url};

verus! {

/// Whether `p` is a prefix of `s`.
pub open spec fn spec_starts_with(s: Seq<char>, p: Seq<char>) -> bool {
    s.len() >= p.len() && s.subrange(0, p.len() as int) == p
}

/// No query or fragment delimiter anywhere in the string.
pub open spec fn spec_no_reserved(s: Seq<char>) -> bool {
    forall|i: int| 0 <= i < s.len() ==> s[i] != '?' && s[i] != '#'
}

/// A base URL the builder can safely extend: an HTTP or HTTPS scheme, and
/// no query or fragment of its own.
pub open spec fn spec_base_ok(s: Seq<char>) -> bool {
    (spec_starts_with(s, "http://"@) || spec_starts_with(s, "https://"@)) && spec_no_reserved(s)
}

/// The base URL a wrapper is configured with: the given one, or the fixed
/// production endpoint.
pub open spec fn spec_chosen_base(api_url: Option<Seq<char>>) -> Seq<char> {
    match api_url {
        Some(u) => u,
        None => "https://api.stripe.com/v1/"@,
    }
}

fn has_prefix(s: &str, p: &str) -> (r: bool)
    ensures
        r == spec_starts_with(s@, p@),
{
    let n = s.unicode_len();
    let m = p.unicode_len();
    if m > n {
        return false;
    }
    let sub = s.substring_char(0, m);
    str_eq(sub, p)
}

fn no_reserved(s: &str) -> (r: bool)
    ensures
        r == spec_no_reserved(s@),
{
    let n = s.unicode_len();
    let mut i: usize = 0;
    while i < n
        invariant
            i <= n,
            n == s@.len(),
            forall|k: int| 0 <= k < i ==> s@[k] != '?' && s@[k] != '#',
        decreases n - i,
    {
        let c = s.get_char(i);
        if c == '?' || c == '#' {
            return false;
        }
        i += 1;
    }
    true
}

/// Checks a configured base URL.
pub fn base_ok(s: &str) -> (r: bool)
    ensures
        r == spec_base_ok(s@),
{
    (has_prefix(s, "http://") || has_prefix(s, "https://")) && no_reserved(s)
}

/// The observable state of a wrapper: its configuration and the scan in
/// progress, if any.
#[verifier::ext_equal]
pub struct FdwView {
    pub base_url: Seq<char>,
    pub api_key: Option<Seq<char>>,
    pub scan: Option<ScanView>,
}

/// The scan lifecycle exposed to a host query engine: `new` fixes the
/// configuration, `begin_scan` resolves and starts one scan, `next_url` /
/// `feed_page` drive its page fetches, `iter_scan` hands the buffered rows
/// out one at a time, and `end_scan` releases the buffer from any state.
pub struct StripeFdw {
    pub base_url: String,
    pub api_key: Option<String>,
    pub scan: Option<Scan>,
}

impl View for StripeFdw {
    type V = FdwView;

    open spec fn view(&self) -> FdwView {
        FdwView {
            base_url: self.base_url@,
            api_key: opt_str_view(self.api_key),
            scan: match self.scan {
                Some(s) => Some(s@),
                None => None,
            },
        }
    }
}

impl StripeFdw {
    /// The scan in progress, if any, still matches the registry.
    pub open spec fn wf(&self) -> bool {
        match self.scan {
            Some(s) => s.wf(),
            None => true,
        }
    }

    /// Sets a wrapper up with an optional base URL override and the
    /// credential the transport will authenticate with. A malformed base
    /// URL is a fatal configuration error, caught here and never at page
    /// fetch time.
    pub fn new(api_url: Option<String>, api_key: Option<String>) -> (r: Result<StripeFdw, FdwError>)
        ensures
            ({
                let base = spec_chosen_base(opt_str_view(api_url));
                if spec_base_ok(base) {
                    &&& r is Ok
                    &&& r->Ok_0.wf()
                    &&& r->Ok_0@ == FdwView { base_url: base, api_key: opt_str_view(api_key), scan: None }
                } else {
                    r is Err && r->Err_0 == FdwError::InvalidBaseUrl
                }
            }),
    {
        let base_url = match api_url {
            Some(u) => u,
            None => owned("https://api.stripe.com/v1/"),
        };
        if base_ok(base_url.as_str()) {
            Ok(StripeFdw { base_url, api_key, scan: None })
        } else {
            Err(FdwError::InvalidBaseUrl)
        }
    }

    /// Starts a scan over one object type. Fails with `MissingCredentials`
    /// when no API key was configured and with `UnknownObject` for a name
    /// outside the registry; in both cases no page is ever asked for, since
    /// no scan is left behind.
    pub fn begin_scan(
        &mut self,
        obj: &str,
        quals: &Vec<Qual>,
        tgt_cols: &Vec<String>,
        limit: &Option<Limit>,
    ) -> (r: Result<(), FdwError>)
        ensures
            final(self).wf(),
            final(self)@.base_url == old(self)@.base_url,
            final(self)@.api_key == old(self)@.api_key,
            if old(self)@.api_key is None {
                &&& r is Err
                &&& r->Err_0 == FdwError::MissingCredentials
                &&& final(self)@.scan is None
            } else {
                match spec_parse_object(obj@) {
                    None => r is Err && r->Err_0 == FdwError::UnknownObject && final(self)@.scan is None,
                    Some(o) => r is Ok && final(self)@.scan == Some(
                        spec_begin(o, quals_view(quals@), cols_view(tgt_cols@), *limit),
                    ),
                }
            },
    {
        self.scan = None;
        if self.api_key.is_none() {
            return Err(FdwError::MissingCredentials);
        }
        match Scan::begin(obj, quals, tgt_cols, limit) {
            Ok(s) => {
                self.scan = Some(s);
                Ok(())
            },
            Err(e) => Err(e),
        }
    }

    /// The URL of the next page the scan needs, or nothing when no scan is
    /// in progress or the scan stopped.
    pub fn next_url(&self) -> (r: Option<String>)
        ensures
            match self@.scan {
                None => r is None,
                Some(s) => match r {
                    Some(u) => under_budget(s) && u@ == spec_build_url(
                        self@.base_url,
                        s.obj,
                        s.params,
                        PAGE_SIZE,
                        s.cursor,
                    ),
                    None => !under_budget(s),
                },
            },
    {
        match &self.scan {
            None => None,
            Some(s) => s.next_url(self.base_url.as_str()),
        }
    }

    /// Feeds one fetched page body into the scan in progress.
    pub fn feed_page(&mut self, body: &str) -> (r: Result<(), FdwError>)
        requires
            old(self).wf(),
            old(self)@.scan is Some,
            under_budget(old(self)@.scan->Some_0),
        ensures
            final(self).wf(),
            final(self)@.base_url == old(self)@.base_url,
            final(self)@.api_key == old(self)@.api_key,
            ({
                let s = old(self)@.scan->Some_0;
                match page_of(body@) {
                    None => r is Err && r->Err_0 == FdwError::MalformedResponse && final(self)@.scan
                        == Some(spec_abort(s)),
                    Some(p) => match spec_decode(p, s.obj, s.cols) {
                        None => r is Err && r->Err_0 == FdwError::MalformedResponse && final(self)@.scan
                            == Some(spec_abort(s)),
                        Some(d) => r is Ok && final(self)@.scan == Some(spec_apply(s, d)),
                    },
                }
            }),
    {
        match &mut self.scan {
            Some(s) => s.feed_page(body),
            None => Err(FdwError::FetchFailed),
        }
    }

    /// Pops and returns one buffered row; nothing once the buffer is empty
    /// or no scan is in progress.
    pub fn iter_scan(&mut self) -> (r: Option<Row>)
        ensures
            final(self).wf() == old(self).wf(),
            final(self)@.base_url == old(self)@.base_url,
            final(self)@.api_key == old(self)@.api_key,
            match old(self)@.scan {
                None => r is None && final(self)@ == old(self)@,
                Some(s) => if s.rows.len() > 0 {
                    &&& r is Some
                    &&& r->0@ == s.rows[0]
                    &&& final(self)@.scan == Some((ScanView { rows: s.rows.drop_first(), ..s }))
                } else {
                    r is None && final(self)@ == old(self)@
                },
            },
    {
        match &mut self.scan {
            None => None,
            Some(s) => s.next_row(),
        }
    }

    /// Releases the scan and its buffer unconditionally; safe from any
    /// state, including after a failed `begin_scan`.
    pub fn end_scan(&mut self)
        ensures
            final(self).wf(),
            final(self)@ == (FdwView {
                base_url: old(self)@.base_url,
                api_key: old(self)@.api_key,
                scan: None,
            }),
    {
        self.scan = None;
    }

    /// The configured credential, for the transport layer to authenticate
    /// its requests with.
    pub fn api_key(&self) -> (r: &Option<String>)
        ensures
            opt_str_view(*r) == self@.api_key,
    {
        &self.api_key
    }
}

} // verus!
