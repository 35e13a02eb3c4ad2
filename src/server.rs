//! The request mediator: the decisions taken for each inbound request, and
//! the recording of what the upstream answered.
use vstd::prelude::*;
use crate::filter::{filters_view, is_match_title, is_match_type, strings_view, title_passes, type_passes, Filter};
use crate::recorder::{content_type_from, fresh_traffic, shown_body, Head, Headers, Recorder, Traffic};
use crate::route::{opt_text, resolve_target, route, route_of, target_of, Route};
use crate::state::{added, lookup, stamped, State};
use crate::text::same_text;

verus! {

/// The configuration and shared store of the proxy.
pub struct Server {
    /// The base URL that origin-form requests are forwarded to.
    pub reverse_proxy_url: Option<String>,
    /// Title filters over `"{METHOD} {URL}"`.
    pub filters: Vec<Filter>,
    /// MIME filters over the response `Content-Type`.
    pub mime_filters: Vec<String>,
    /// The completed records.
    pub state: State,
}

/// What is done with an inbound request.
pub enum Plan {
    /// No target URL: answered with `500` and this text; the failed record is
    /// stored with the head given.
    Failed(Head, String),
    /// Answered by the control surface.
    Control(Route),
    /// A CONNECT: handed to the tunnel with this recorder.
    Connect(Recorder),
    /// Forwarded to this URL, recorded by this recorder.
    Forward(String, Recorder),
}

/// The title that title filters are matched against.
pub open spec fn title_of(method: Seq<char>, url: Seq<char>) -> Seq<char> {
    method + " "@ + url
}

/// Whether a header is the `host` header (names are held in lower case).
pub open spec fn is_host(h: (String, String)) -> bool {
    h.0@ == "host"@
}

/// The headers sent upstream: all but `host`, in order.
pub open spec fn without_host(hs: Seq<(String, String)>) -> Seq<(String, String)>
    decreases hs.len(),
{
    if hs.len() == 0 {
        hs
    } else if is_host(hs.last()) {
        without_host(hs.drop_last())
    } else {
        without_host(hs.drop_last()).push(hs.last())
    }
}

/// The `content-encoding` in force after the first `k` headers: the value
/// of the last such header among them, or empty.
pub open spec fn encoding_upto(hs: Seq<(String, String)>, k: int) -> Seq<char>
    decreases k,
{
    if k <= 0 || k > hs.len() {
        Seq::empty()
    } else if hs[k - 1].0@ == "content-encoding"@ {
        hs[k - 1].1@
    } else {
        encoding_upto(hs, k - 1)
    }
}

/// The `content-encoding` of a response: the value of its last such header.
pub open spec fn encoding_of(hs: Seq<(String, String)>) -> Seq<char> {
    encoding_upto(hs, hs.len() as int)
}

/// The headers sent upstream.
pub fn forward_headers(hs: &Headers) -> (r: Headers)
    ensures
        r@ == without_host(hs@),
{
    let mut out: Headers = Vec::new();
    let mut k: usize = 0;
    while k < hs.len()
        invariant
            k <= hs.len(),
            out@ == without_host(hs@.subrange(0, k as int)),
        decreases hs.len() - k,
    {
        assert(hs@.subrange(0, k + 1).drop_last() =~= hs@.subrange(0, k as int));
        if !same_text(hs[k].0.as_str(), "host") {
            out.push((hs[k].0.clone(), hs[k].1.clone()));
        }
        k = k + 1;
    }
    assert(hs@.subrange(0, hs@.len() as int) =~= hs@);
    out
}

/// The `content-encoding` of a response.
pub fn response_encoding(hs: &Headers) -> (r: String)
    ensures
        r@ == encoding_of(hs@),
{
    let mut enc = String::new();
    let mut k: usize = 0;
    while k < hs.len()
        invariant
            k <= hs.len(),
            enc@ == encoding_upto(hs@, k as int),
        decreases hs.len() - k,
    {
        if same_text(hs[k].0.as_str(), "content-encoding") {
            enc = hs[k].1.clone();
        }
        k = k + 1;
    }
    enc
}

/// The record of a transaction once its recorder has been finalized at
/// `end`.
pub open spec fn finalized(r: Recorder, end: u64) -> Traffic {
    Traffic { end: Some(end), ..r.traffic }
}

/// Whether `t`, the last record of `after`, is the one a recorder `rec`
/// yields when finalized at `end` after `error` was added, stored after the
/// records of `before`.
pub open spec fn stored_with_error(before: Seq<Traffic>, after: Seq<Traffic>, rec: Recorder, error: String, end: u64) -> bool {
    let t = after.last();
    &&& after.len() == before.len() + 1
    &&& after.drop_last() == before
    &&& t.errors@ == rec.traffic.errors@.push(error)
    &&& t == (Traffic { id: (before.len() + 1) as u64, errors: t.errors, end: Some(end), ..rec.traffic })
}

impl Server {
    /// The store keeps its ids in order.
    pub open spec fn wf(&self) -> bool {
        self.state.wf()
    }

    /// A server with an empty store.
    pub fn new(reverse_proxy_url: Option<String>, filters: Vec<Filter>, mime_filters: Vec<String>) -> (r: Server)
        ensures
            r.wf(),
            r.state@.len() == 0,
            r.reverse_proxy_url == reverse_proxy_url,
            r.filters == filters,
            r.mime_filters == mime_filters,
    {
        Server { reverse_proxy_url, filters, mime_filters, state: State::new() }
    }

    /// Finalizes `recorder` at `end` and stores its record; returns the head
    /// to publish to subscribers.
    pub fn take_recorder(&mut self, recorder: Recorder, end: u64) -> (r: Head)
        requires
            old(self).wf(),
            old(self).state@.len() < u64::MAX,
        ensures
            final(self).wf(),
            final(self).state@ == added(old(self).state@, finalized(recorder, end)),
            r.id == old(self).state@.len() + 1,
            crate::recorder::is_head_of(r, stamped(finalized(recorder, end), r.id)),
            final(self).reverse_proxy_url == old(self).reverse_proxy_url,
            final(self).filters == old(self).filters,
            final(self).mime_filters == old(self).mime_filters,
    {
        let t = recorder.take_traffic(end);
        self.state.add_traffic(t)
    }

    /// Records `error` on the transaction, finalizes it at `end` and stores
    /// it; the downstream answer is a `500`.
    pub fn internal_server_error(&mut self, recorder: Recorder, error: String, end: u64) -> (r: Head)
        requires
            old(self).wf(),
            old(self).state@.len() < u64::MAX,
        ensures
            final(self).wf(),
            stored_with_error(old(self).state@, final(self).state@, recorder, error, end),
            r.id == old(self).state@.len() + 1,
            crate::recorder::is_head_of(r, final(self).state@.last()),
            final(self).reverse_proxy_url == old(self).reverse_proxy_url,
            final(self).filters == old(self).filters,
            final(self).mime_filters == old(self).mime_filters,
    {
        let ghost before = self.state@;
        let mut recorder = recorder;
        recorder.add_error(error);
        let h = self.take_recorder(recorder, end);
        assert(self.state@.drop_last() =~= before);
        h
    }

    /// Decides what to do with a request whose request-target is `uri`,
    /// received at `now`. A forwarded or tunneled transaction is recorded
    /// under its target URL. Where no target URL can be resolved the failed
    /// transaction is stored at once, under the request-target.
    pub fn plan(&mut self, uri: &str, method: &str, now: u64) -> (r: Plan)
        requires
            old(self).wf(),
            old(self).state@.len() < u64::MAX,
        ensures
            final(self).wf(),
            final(self).reverse_proxy_url == old(self).reverse_proxy_url,
            final(self).filters == old(self).filters,
            final(self).mime_filters == old(self).mime_filters,
            match target_of(uri@, opt_text(old(self).reverse_proxy_url)) {
                None => r matches Plan::Failed(h, msg) && {
                    let t = final(self).state@.last();
                    &&& msg@ == "No reverse proxy url"@
                    &&& final(self).state@.len() == old(self).state@.len() + 1
                    &&& final(self).state@.drop_last() == old(self).state@
                    &&& t.id == old(self).state@.len() + 1
                    &&& t.uri@ == uri@
                    &&& t.method@ == method@
                    &&& t.errors@.len() == 1
                    &&& t.errors@[0]@ == msg@
                    &&& t.res_status is None
                    &&& t.start == now
                    &&& t.end == Some(now)
                    &&& crate::recorder::is_head_of(h, t)
                },
                Some(url) => final(self).state@ == old(self).state@ && if route_of(url) != Route::Forward {
                    r matches Plan::Control(rt) && rt == route_of(url)
                } else if method@ == "CONNECT"@ {
                    r matches Plan::Connect(rec) && fresh_traffic(url, method@, now, rec.traffic)
                        && rec.dump == (title_passes(filters_view(old(self).filters@), title_of(method@, url))
                            && (old(self).filters@.len() > 0 || old(self).mime_filters@.len() > 0))
                } else {
                    r matches Plan::Forward(u, rec) && u@ == url && fresh_traffic(url, method@, now, rec.traffic)
                        && rec.dump == title_passes(filters_view(old(self).filters@), title_of(method@, url))
                },
            },
    {
        let url = match resolve_target(uri, &self.reverse_proxy_url) {
            Ok(u) => u,
            Err(e) => {
                let msg = e.message();
                let ghost m = msg;
                let recorder = Recorder::new(uri, method, now);
                let h = self.internal_server_error(recorder, msg.clone(), now);
                proof {
                    let t = self.state@.last();
                    assert(t.errors@ =~= seq![msg]);
                }
                return Plan::Failed(h, msg);
            },
        };
        let rt = route(url.as_str());
        if rt != Route::Forward {
            return Plan::Control(rt);
        }
        let mut recorder = Recorder::new(url.as_str(), method, now);
        let title = String::from_str(method).concat(" ").concat(url.as_str());
        recorder.control_dump(is_match_title(&self.filters, title.as_str()));
        if same_text(method, "CONNECT") {
            recorder.control_dump(self.filters.len() > 0 || self.mime_filters.len() > 0);
            Plan::Connect(recorder)
        } else {
            Plan::Forward(url, recorder)
        }
    }

    /// Records the upstream response on `recorder`: its status and headers,
    /// the MIME filters' verdict on its `Content-Type`, and its body as
    /// received and as shown. Returns the body to send downstream, which is
    /// the body as received.
    pub fn on_response(&self, recorder: &mut Recorder, status: u16, headers: Headers, body: Vec<u8>) -> (r: Vec<u8>)
        ensures
            r@ == body@,
            final(recorder).traffic.res_status == Some(status),
            final(recorder).traffic.res_headers == Some(headers),
            final(recorder).traffic.res_raw_body == Some(body),
            final(recorder).traffic.res_body matches Some(b) && b@ == shown_body(body@, encoding_of(headers@)),
            final(recorder).traffic == (Traffic {
                res_status: final(recorder).traffic.res_status,
                res_headers: final(recorder).traffic.res_headers,
                res_body: final(recorder).traffic.res_body,
                res_raw_body: final(recorder).traffic.res_raw_body,
                ..old(recorder).traffic
            }),
            final(recorder).dump == (old(recorder).dump && match content_type_from(headers@, 0) {
                Some(v) => type_passes(strings_view(self.mime_filters@), v),
                None => true,
            }),
    {
        let ct = content_type_value(&headers);
        match &ct {
            Some(v) => recorder.control_dump(is_match_type(&self.mime_filters, v.as_str())),
            None => {},
        }
        let encoding = response_encoding(&headers);
        let downstream = vstd::slice::slice_to_vec(body.as_slice());
        recorder.set_res_status(status);
        recorder.set_res_headers(headers);
        recorder.set_res_body(body, encoding.as_str());
        downstream
    }
}

/// The value of the first `content-type` header.
pub fn content_type_value(hs: &Headers) -> (r: Option<String>)
    ensures
        opt_text(r) == content_type_from(hs@, 0),
{
    let mut k: usize = 0;
    while k < hs.len()
        invariant
            k <= hs.len(),
            content_type_from(hs@, 0) == content_type_from(hs@, k as int),
        decreases hs.len() - k,
    {
        if same_text(hs[k].0.as_str(), "content-type") {
            return Some(hs[k].1.clone());
        }
        k = k + 1;
    }
    None
}

/// The request body recorded for a transaction is what reading its record
/// back by id gives.
pub proof fn law_request_body_read_back(v: Seq<Traffic>, rec: Recorder, end: u64)
    requires
        v.len() < u64::MAX,
    ensures
        lookup(added(v, finalized(rec, end)), (v.len() + 1) as u64) matches Some(t) && t.req_body == rec.traffic.req_body,
{
}

/// An empty response body is recorded as empty, not as missing.
pub proof fn law_empty_body_recorded_empty(label: Seq<char>)
    ensures
        shown_body(Seq::empty(), label) == Seq::<u8>::empty(),
{
}

} // verus!
