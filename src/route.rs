//! Where an inbound request goes: the target URL it stands for, and whether
//! the control surface answers it or it is forwarded.
use vstd::prelude::*;
use crate::text::{has_prefix, same_text, starts_with, tail_from, head_until};

verus! {

/// The prefix of the inspection interface's paths.
pub const WEBUI_PREFIX: &'static str = "/__proxyfor__";

/// The address of the certificate install site.
pub const CERT_SITE_URL: &'static str = "http://proxyfor.local/";

/// Why no target URL could be resolved.
#[derive(Debug, PartialEq, Eq, Structural)]
pub enum ResolveError {
    /// An origin-form request arrived and no reverse-proxy base URL is set.
    NoReverseProxyUrl,
}

impl ResolveError {
    /// The text sent downstream and recorded for this error.
    pub fn message(&self) -> (r: String)
        ensures
            r@ == "No reverse proxy url"@,
    {
        String::from_str("No reverse proxy url")
    }
}

/// The target URL of a request whose request-target is `uri`, given the
/// reverse-proxy base URL `base`: an absolute target, or one under the
/// inspection prefix, is kept; an origin-form one is appended to the base
/// (`/` maps to the base itself); without a base there is none.
pub open spec fn target_of(uri: Seq<char>, base: Option<Seq<char>>) -> Option<Seq<char>> {
    if !has_prefix(uri, "/"@) || has_prefix(uri, WEBUI_PREFIX@) {
        Some(uri)
    } else {
        match base {
            Some(b) => if uri == "/"@ {
                Some(b)
            } else {
                Some(b + uri)
            },
            None => None,
        }
    }
}

/// The view of an optional string.
pub open spec fn opt_text(s: Option<String>) -> Option<Seq<char>> {
    match s {
        Some(v) => Some(v@),
        None => None,
    }
}

/// Resolves the target URL of a request.
pub fn resolve_target(uri: &str, reverse_proxy_url: &Option<String>) -> (r: Result<String, ResolveError>)
    ensures
        match r {
            Ok(u) => target_of(uri@, opt_text(*reverse_proxy_url)) == Some(u@),
            Err(e) => target_of(uri@, opt_text(*reverse_proxy_url)) is None && e == ResolveError::NoReverseProxyUrl,
        },
{
    if !starts_with(uri, "/") || starts_with(uri, WEBUI_PREFIX) {
        return Ok(String::from_str(uri));
    }
    match reverse_proxy_url {
        Some(base) => {
            if same_text(uri, "/") {
                Ok(base.clone())
            } else {
                let mut u = base.clone();
                u.append(uri);
                Ok(u)
            }
        },
        None => Err(ResolveError::NoReverseProxyUrl),
    }
}

/// The position of the first `?` in `s` from position `k` on, or the length.
pub open spec fn query_start(s: Seq<char>, k: int) -> int
    decreases s.len() - k,
{
    if k < 0 || k >= s.len() {
        s.len() as int
    } else if s[k] == '?' {
        k
    } else {
        query_start(s, k + 1)
    }
}

/// A URL without its query.
pub open spec fn path_of(url: Seq<char>) -> Seq<char> {
    url.subrange(0, query_start(url, 0))
}

/// The URL without its query.
pub fn strip_query(url: &str) -> (r: String)
    ensures
        r@ == path_of(url@),
{
    let n = url.unicode_len();
    let mut k: usize = 0;
    while k < n && url.get_char(k) != '?'
        invariant
            n == url@.len(),
            k <= n,
            query_start(url@, 0) == query_start(url@, k as int),
        decreases n - k,
    {
        k = k + 1;
    }
    head_until(url, k)
}

/// Whether `c` is a decimal digit.
pub open spec fn is_digit(c: char) -> bool {
    48 <= c as u32 <= 57
}

/// The value of a run of decimal digits.
pub open spec fn digits_value(s: Seq<char>) -> nat
    decreases s.len(),
{
    if s.len() == 0 {
        0
    } else {
        digits_value(s.drop_last()) * 10 + (s.last() as u32 - 48) as nat
    }
}

/// The digits of an unsigned number as text: an optional `+` sign dropped.
pub open spec fn unsigned_digits(s: Seq<char>) -> Seq<char> {
    if s.len() > 0 && s[0] == '+' {
        s.drop_first()
    } else {
        s
    }
}

/// The `u64` that `s` spells in decimal: one or more digits after an
/// optional `+`, of a value that fits.
pub open spec fn u64_of(s: Seq<char>) -> Option<u64> {
    let d = unsigned_digits(s);
    if d.len() > 0 && (forall|i: int| 0 <= i < d.len() ==> is_digit(#[trigger] d[i]))
        && digits_value(d) <= u64::MAX {
        Some(digits_value(d) as u64)
    } else {
        None
    }
}

proof fn lemma_digits_value_grows(d: Seq<char>, k: int, j: int)
    requires
        0 <= k <= j <= d.len(),
        forall|i: int| 0 <= i < d.len() ==> is_digit(#[trigger] d[i]),
    ensures
        digits_value(d.subrange(0, k)) <= digits_value(d.subrange(0, j)),
    decreases j - k,
{
    if k < j {
        lemma_digits_value_grows(d, k, j - 1);
        assert(d.subrange(0, j).drop_last() =~= d.subrange(0, j - 1));
        assert(is_digit(d[j - 1]));
    }
}

/// Parses a record id as `u64`'s `FromStr` does.
pub fn parse_id(s: &str) -> (r: Option<u64>)
    ensures
        r == u64_of(s@),
{
    let n = s.unicode_len();
    let start: usize = if n > 0 && s.get_char(0) == '+' { 1 } else { 0 };
    let ghost d = unsigned_digits(s@);
    assert(d =~= s@.subrange(start as int, n as int));
    if start == n {
        return None;
    }
    let mut acc: u64 = 0;
    let mut k: usize = start;
    while k < n
        invariant
            n == s@.len(),
            start <= k <= n,
            d == s@.subrange(start as int, n as int),
            d == unsigned_digits(s@),
            forall|i: int| 0 <= i < k - start ==> is_digit(#[trigger] d[i]),
            acc == digits_value(d.subrange(0, k - start)),
        decreases n - k,
    {
        let c = s.get_char(k);
        let cu = c as u32;
        assert(c == d[k - start]);
        if cu < 48 || cu > 57 {
            assert(!is_digit(d[k - start]));
            assert(!(forall|i: int| 0 <= i < d.len() ==> is_digit(#[trigger] d[i])));
            return None;
        }
        let digit = (cu - 48) as u64;
        assert(d.subrange(0, k - start + 1).drop_last() =~= d.subrange(0, k - start));
        assert(digits_value(d.subrange(0, k - start + 1)) == acc * 10 + digit);
        if acc > (u64::MAX - digit) / 10 {
            proof {
                assert(acc * 10 + digit > u64::MAX) by (nonlinear_arith)
                    requires
                        acc > (u64::MAX - digit) / 10,
                        digit <= 9,
                ;
                if forall|i: int| 0 <= i < d.len() ==> is_digit(#[trigger] d[i]) {
                    lemma_digits_value_grows(d, k - start + 1, d.len() as int);
                    assert(d.subrange(0, d.len() as int) =~= d);
                    assert(digits_value(d) > u64::MAX);
                }
            }
            return None;
        }
        proof {
            assert(acc * 10 + digit <= u64::MAX) by (nonlinear_arith)
                requires
                    acc <= (u64::MAX - digit) / 10,
                    digit <= 9,
            ;
        }
        acc = acc * 10 + digit;
        k = k + 1;
    }
    assert(d.subrange(0, n - start) =~= d);
    Some(acc)
}

/// The name under which the root certificate is downloaded.
pub open spec fn cert_file_name(pem: bool) -> Seq<char> {
    if pem {
        "proxyfor-ca-cert.pem"@
    } else {
        "proxyfor-ca-cert.cer"@
    }
}

/// The `Content-Disposition` of the root certificate download.
pub fn cert_disposition(pem: bool) -> (r: String)
    ensures
        r@ == "attachment; filename=\""@ + cert_file_name(pem) + "\""@,
{
    let name = if pem { "proxyfor-ca-cert.pem" } else { "proxyfor-ca-cert.cer" };
    String::from_str("attachment; filename=\"").concat(name).concat("\"")
}

/// Where the control surface sends a request, or that it is forwarded.
#[derive(Debug, PartialEq, Eq, Structural)]
pub enum Route {
    /// The certificate install page.
    CertIndex,
    /// The root certificate download; `true` for the `.pem` name.
    CertFile(bool),
    /// An unknown page of the certificate site.
    CertNotFound,
    /// The inspection interface's index.
    WebuiIndex,
    /// The live feed of heads.
    Subscribe,
    /// The list of heads.
    ListTraffics,
    /// One record, by the id as given in the path (`None` where it does not
    /// parse).
    TrafficInfo(Option<u64>),
    /// An unknown path under the inspection prefix.
    WebuiNotFound,
    /// Not for the control surface: the request is forwarded.
    Forward,
}

/// The route of a path under the certificate site, given the rest after the
/// site's address.
pub open spec fn cert_route(rest: Seq<char>) -> Route {
    if rest.len() == 0 {
        Route::CertIndex
    } else if rest == "proxyfor-ca-cert.cer"@ {
        Route::CertFile(false)
    } else if rest == "proxyfor-ca-cert.pem"@ {
        Route::CertFile(true)
    } else {
        Route::CertNotFound
    }
}

/// The route of a path under the inspection prefix, given the rest after it.
pub open spec fn webui_route(rest: Seq<char>) -> Route {
    if rest.len() == 0 || rest == "/"@ {
        Route::WebuiIndex
    } else if rest == "/subscribe"@ {
        Route::Subscribe
    } else if rest == "/traffics"@ {
        Route::ListTraffics
    } else if has_prefix(rest, "/traffic/"@) {
        Route::TrafficInfo(u64_of(rest.subrange("/traffic/"@.len() as int, rest.len() as int)))
    } else {
        Route::WebuiNotFound
    }
}

/// The route of a resolved target URL; the query does not take part.
pub open spec fn route_of(url: Seq<char>) -> Route {
    let p = path_of(url);
    if has_prefix(p, CERT_SITE_URL@) {
        cert_route(p.subrange(CERT_SITE_URL@.len() as int, p.len() as int))
    } else if has_prefix(p, WEBUI_PREFIX@) {
        webui_route(p.subrange(WEBUI_PREFIX@.len() as int, p.len() as int))
    } else {
        Route::Forward
    }
}

/// Decides where a resolved target URL goes.
pub fn route(url: &str) -> (r: Route)
    ensures
        r == route_of(url@),
{
    let path = strip_query(url);
    let p = path.as_str();
    if starts_with(p, CERT_SITE_URL) {
        let rest = tail_from(p, CERT_SITE_URL.unicode_len());
        let rest = rest.as_str();
        if rest.unicode_len() == 0 {
            Route::CertIndex
        } else if same_text(rest, "proxyfor-ca-cert.cer") {
            Route::CertFile(false)
        } else if same_text(rest, "proxyfor-ca-cert.pem") {
            Route::CertFile(true)
        } else {
            Route::CertNotFound
        }
    } else if starts_with(p, WEBUI_PREFIX) {
        let rest = tail_from(p, WEBUI_PREFIX.unicode_len());
        let rest = rest.as_str();
        if rest.unicode_len() == 0 || same_text(rest, "/") {
            Route::WebuiIndex
        } else if same_text(rest, "/subscribe") {
            Route::Subscribe
        } else if same_text(rest, "/traffics") {
            Route::ListTraffics
        } else if starts_with(rest, "/traffic/") {
            let id = tail_from(rest, "/traffic/".unicode_len());
            Route::TrafficInfo(parse_id(id.as_str()))
        } else {
            Route::WebuiNotFound
        }
    } else {
        Route::Forward
    }
}

} // verus!
