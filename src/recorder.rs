//! The record of one transaction and the recorder that fills it in while
//! the transaction is in flight.
use vstd::prelude::*;
use crate::codec::{body_for_record, recorded};
use crate::text::same_text;

verus! {

/// Headers in the order they were on the wire, duplicates kept, each a
/// `(name, value)` pair.
pub type Headers = Vec<(String, String)>;

/// A captured transaction.
pub struct Traffic {
    /// Assigned by the store when the record is added; 0 before that.
    pub id: u64,
    pub uri: String,
    pub method: String,
    pub req_headers: Headers,
    pub req_body: Vec<u8>,
    /// Absent where the transaction failed before the upstream answered.
    pub res_status: Option<u16>,
    pub res_headers: Option<Headers>,
    /// The response body as recorded: decoded where the encoding was
    /// recognized and decoding succeeded.
    pub res_body: Option<Vec<u8>>,
    /// The response body as it was on the wire.
    pub res_raw_body: Option<Vec<u8>>,
    /// Errors met while handling the transaction, in order.
    pub errors: Vec<String>,
    /// Start and end, in milliseconds since the Unix epoch.
    pub start: u64,
    pub end: Option<u64>,
}

/// The compact projection of a record shown in lists and live feeds.
pub struct Head {
    pub id: u64,
    pub method: String,
    pub uri: String,
    pub status: Option<u16>,
    pub mime: String,
}

/// The value of the first `content-type` header from position `k` on.
/// Header names are held in lower case, as the HTTP layer hands them over.
pub open spec fn content_type_from(hs: Seq<(String, String)>, k: int) -> Option<Seq<char>>
    decreases hs.len() - k,
{
    if k < 0 || k >= hs.len() {
        None
    } else if hs[k].0@ == "content-type"@ {
        Some(hs[k].1@)
    } else {
        content_type_from(hs, k + 1)
    }
}

/// The position of the first `;` in `v` from position `k` on, or the length.
pub open spec fn mime_end(v: Seq<char>, k: int) -> int
    decreases v.len() - k,
{
    if k < 0 || k >= v.len() {
        v.len() as int
    } else if v[k] == ';' {
        k
    } else {
        mime_end(v, k + 1)
    }
}

/// The MIME type of a `Content-Type` value: what stands before any `;`.
pub open spec fn mime_of_value(v: Seq<char>) -> Seq<char> {
    v.subrange(0, mime_end(v, 0))
}

/// The MIME type shown for a record: that of its response `Content-Type`,
/// or empty.
pub open spec fn mime_of(t: Traffic) -> Seq<char> {
    match t.res_headers {
        Some(hs) => match content_type_from(hs@, 0) {
            Some(v) => mime_of_value(v),
            None => Seq::empty(),
        },
        None => Seq::empty(),
    }
}

/// Whether `h` is the head of `t`.
pub open spec fn is_head_of(h: Head, t: Traffic) -> bool {
    &&& h.id == t.id
    &&& h.method@ == t.method@
    &&& h.uri@ == t.uri@
    &&& h.status == t.res_status
    &&& h.mime@ == mime_of(t)
}

/// The MIME type of a `Content-Type` value.
pub fn mime_from_value(v: &str) -> (r: String)
    ensures
        r@ == mime_of_value(v@),
{
    let n = v.unicode_len();
    let mut k: usize = 0;
    while k < n && v.get_char(k) != ';'
        invariant
            n == v@.len(),
            k <= n,
            mime_end(v@, 0) == mime_end(v@, k as int),
        decreases n - k,
    {
        k = k + 1;
    }
    String::from_str(v.substring_char(0, k))
}

/// The MIME type of a header list: that of its first `content-type`, or empty.
pub fn mime_from_headers(hs: &Headers) -> (r: String)
    ensures
        r@ == match content_type_from(hs@, 0) {
            Some(v) => mime_of_value(v),
            None => Seq::empty(),
        },
{
    let mut k: usize = 0;
    while k < hs.len()
        invariant
            k <= hs.len(),
            content_type_from(hs@, 0) == content_type_from(hs@, k as int),
        decreases hs.len() - k,
    {
        if same_text(hs[k].0.as_str(), "content-type") {
            return mime_from_value(hs[k].1.as_str());
        }
        k = k + 1;
    }
    String::new()
}

impl Traffic {
    /// The head of this record.
    pub fn head(&self) -> (r: Head)
        ensures
            is_head_of(r, *self),
    {
        let mime = match &self.res_headers {
            Some(hs) => mime_from_headers(hs),
            None => String::new(),
        };
        Head {
            id: self.id,
            method: self.method.clone(),
            uri: self.uri.clone(),
            status: self.res_status,
            mime,
        }
    }
}

/// Accumulates one transaction while it is in flight.
pub struct Recorder {
    /// The record being filled in.
    pub traffic: Traffic,
    /// Whether the record is to be printed; once false it stays false.
    pub dump: bool,
}

/// The response body shown for a record: empty for an empty body, else as
/// `recorded` gives it.
pub open spec fn shown_body(raw: Seq<u8>, label: Seq<char>) -> Seq<u8> {
    if raw.len() == 0 {
        raw
    } else {
        recorded(raw, label)
    }
}

/// A fresh record for a request with `uri` and `method` started at `start`.
pub open spec fn fresh_traffic(uri: Seq<char>, method: Seq<char>, start: u64, t: Traffic) -> bool {
    &&& t.id == 0
    &&& t.uri@ == uri
    &&& t.method@ == method
    &&& t.req_headers@.len() == 0
    &&& t.req_body@.len() == 0
    &&& t.res_status is None
    &&& t.res_headers is None
    &&& t.res_body is None
    &&& t.res_raw_body is None
    &&& t.errors@.len() == 0
    &&& t.start == start
    &&& t.end is None
}

impl Recorder {
    /// Starts recording a transaction for `uri` and `method` at `start`;
    /// the dump flag starts true.
    pub fn new(uri: &str, method: &str, start: u64) -> (r: Recorder)
        ensures
            fresh_traffic(uri@, method@, start, r.traffic),
            r.dump,
    {
        Recorder {
            traffic: Traffic {
                id: 0,
                uri: String::from_str(uri),
                method: String::from_str(method),
                req_headers: Vec::new(),
                req_body: Vec::new(),
                res_status: None,
                res_headers: None,
                res_body: None,
                res_raw_body: None,
                errors: Vec::new(),
                start,
                end: None,
            },
            dump: true,
        }
    }

    /// Folds the outcome of one filter check into the dump flag.
    pub fn control_dump(&mut self, pass: bool)
        ensures
            final(self).dump == (old(self).dump && pass),
            final(self).traffic == old(self).traffic,
    {
        self.dump = self.dump && pass;
    }

    /// Records the request headers.
    pub fn set_req_headers(&mut self, headers: Headers)
        ensures
            final(self).traffic == (Traffic { req_headers: headers, ..old(self).traffic }),
            final(self).dump == old(self).dump,
    {
        self.traffic.req_headers = headers;
    }

    /// Records the request body (an empty body is recorded as empty).
    pub fn set_req_body(&mut self, body: Vec<u8>)
        ensures
            final(self).traffic == (Traffic { req_body: body, ..old(self).traffic }),
            final(self).dump == old(self).dump,
    {
        self.traffic.req_body = body;
    }

    /// Records the response status.
    pub fn set_res_status(&mut self, status: u16)
        ensures
            final(self).traffic == (Traffic { res_status: Some(status), ..old(self).traffic }),
            final(self).dump == old(self).dump,
    {
        self.traffic.res_status = Some(status);
    }

    /// Records the response headers.
    pub fn set_res_headers(&mut self, headers: Headers)
        ensures
            final(self).traffic == (Traffic { res_headers: Some(headers), ..old(self).traffic }),
            final(self).dump == old(self).dump,
    {
        self.traffic.res_headers = Some(headers);
    }

    /// Records the response body as it was on the wire, and the body to
    /// show: decoded according to `encoding` where that applies, else the
    /// same bytes. An empty body is recorded as empty.
    pub fn set_res_body(&mut self, raw: Vec<u8>, encoding: &str)
        ensures
            final(self).traffic.res_raw_body == Some(raw),
            final(self).traffic.res_body matches Some(b) && b@ == shown_body(raw@, encoding@),
            final(self).traffic == (Traffic {
                res_body: final(self).traffic.res_body,
                res_raw_body: final(self).traffic.res_raw_body,
                ..old(self).traffic
            }),
            final(self).dump == old(self).dump,
    {
        let shown = if raw.len() == 0 {
            Vec::new()
        } else {
            body_for_record(raw.as_slice(), encoding)
        };
        proof {
            if raw@.len() == 0 {
                assert(shown@ =~= raw@);
            }
        }
        self.traffic.res_body = Some(shown);
        self.traffic.res_raw_body = Some(raw);
    }

    /// Appends an error to the record.
    pub fn add_error(&mut self, error: String)
        ensures
            final(self).traffic.errors@ == old(self).traffic.errors@.push(error),
            final(self).traffic == (Traffic { errors: final(self).traffic.errors, ..old(self).traffic }),
            final(self).dump == old(self).dump,
    {
        self.traffic.errors.push(error);
    }

    /// Whether the record is to be printed.
    pub fn is_dump(&self) -> (r: bool)
        ensures
            r == self.dump,
    {
        self.dump
    }

    /// Ends the transaction at `end` and yields its record.
    pub fn take_traffic(self, end: u64) -> (r: Traffic)
        ensures
            r == (Traffic { end: Some(end), ..self.traffic }),
    {
        let mut t = self.traffic;
        t.end = Some(end);
        t
    }
}

} // verus!
