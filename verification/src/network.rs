//! HTTP requests through the host.
//!
//! The host reads the parameters of a request through pointers for as long
//! as the request is under way, so the binding owns every buffer behind them
//! until the completion arrives. Both the parameters and the completion
//! callback are kept under the identifier the host assigned to the request,
//! and both are taken out exactly once, by the completion, before the
//! callback runs.

use crate::buffer::{payload, payload_of};
use crate::host_string::{has_nul, is_first_nul, HostString, NulError};
use crate::sys::FsNetworkRequestId;
use std::collections::HashMap;
use vstd::prelude::*;
use vstd::slice::slice_to_vec;
use vstd::string::StringSliceAdditionalSpecFns;
use vstd::utf8::encode_utf8;

verus! {

/// A failed network call.
#[derive(Debug, Clone, Copy, PartialEq, Eq, Structural)]
pub enum NetError {
    /// A URL, a header or the form field holds a zero byte and cannot be
    /// handed to the host.
    Nul(NulError),
    /// The host reported this code.
    Msfs(i32),
}

pub type NetResult<T> = Result<T, NetError>;

impl From<NulError> for NetError {
    fn from(value: NulError) -> (error: NetError) {
        NetError::Nul(value)
    }
}

impl vstd::std_specs::convert::FromSpecImpl<NulError> for NetError {
    open spec fn obeys_from_spec() -> bool {
        true
    }

    open spec fn from_spec(value: NulError) -> NetError {
        NetError::Nul(value)
    }
}

/// What a completed request brought.
#[derive(Debug, Clone)]
pub struct HttpResponse {
    pub request_id: FsNetworkRequestId,
    pub error_code: i32,
    pub data: Vec<u8>,
}

/// The parameters of a request as the caller gives them.
pub struct HttpParams {
    pub headers: Vec<String>,
    pub post_field: Option<String>,
    pub body: Vec<u8>,
}

impl Default for HttpParams {
    fn default() -> (params: HttpParams)
        ensures
            params.headers@.len() == 0,
            params.post_field is None,
            params.body@.len() == 0,
    {
        HttpParams { headers: Vec::new(), post_field: None, body: Vec::new() }
    }
}

/// The HTTP method of a request.
#[derive(Debug, Clone, Copy, PartialEq, Eq, Structural)]
pub enum Method {
    Get,
    Post,
    Put,
}

/// The parameters of a request as the host reads them.
pub struct ParamsView {
    pub post_field: Option<Seq<u8>>,
    pub headers: Seq<Seq<u8>>,
    pub body: Seq<u8>,
}

/// The bytes of the headers of `params`, in order.
pub open spec fn header_bytes(params: HttpParams) -> Seq<Seq<u8>> {
    Seq::new(params.headers@.len(), |i: int| encode_utf8(params.headers@[i]@))
}

/// The bytes of the form field of `params`, if it has one.
pub open spec fn post_field_bytes(params: HttpParams) -> Option<Seq<u8>> {
    match params.post_field {
        Some(field) => Some(encode_utf8(field@)),
        None => None,
    }
}

/// What the host reads for `params`, if they can be encoded.
pub open spec fn encoded(params: HttpParams) -> ParamsView {
    ParamsView {
        post_field: post_field_bytes(params),
        headers: header_bytes(params),
        body: params.body@,
    }
}

/// Whether `position` is where the encoding of `params` fails: at the first
/// zero byte of the form field, or, with a form field that is free of them,
/// at the first zero byte of the first header that holds one.
pub open spec fn is_params_nul(params: HttpParams, position: int) -> bool {
    match post_field_bytes(params) {
        Some(field) if has_nul(field) => is_first_nul(field, position),
        _ => exists|i: int|
            {
                &&& 0 <= i < header_bytes(params).len()
                &&& #[trigger] is_first_nul(header_bytes(params)[i], position)
                &&& forall|j: int| 0 <= j < i ==> !has_nul(#[trigger] header_bytes(params)[j])
            },
    }
}

/// Whether the form field and every header of `params` are free of zero
/// bytes.
pub open spec fn is_encodable(params: HttpParams) -> bool {
    &&& post_field_bytes(params) matches Some(field) ==> !has_nul(field)
    &&& forall|i: int|
        0 <= i < header_bytes(params).len() ==> !has_nul(#[trigger] header_bytes(params)[i])
}

/// The parameters of a request in the host's encoding. This value owns every
/// buffer the host reads while the request is under way.
pub struct OwnedFfiParams {
    post_field: Option<HostString>,
    headers: Vec<HostString>,
    body: Vec<u8>,
}

impl OwnedFfiParams {
    /// What the host reads.
    pub closed spec fn view(&self) -> ParamsView {
        ParamsView {
            post_field: match self.post_field {
                Some(field) => Some(field@),
                None => None,
            },
            headers: Seq::new(self.headers@.len(), |i: int| self.headers@[i]@),
            body: self.body@,
        }
    }

    /// Encodes `p` for the host: the form field first, then the headers in
    /// order. Fails at the first of them that holds a zero byte.
    pub fn new(p: HttpParams) -> (owned: NetResult<OwnedFfiParams>)
        ensures
            match owned {
                Ok(params) => is_encodable(p) && params@ == encoded(p),
                Err(e) => {
                    &&& !is_encodable(p)
                    &&& e matches NetError::Nul(nul)
                    &&& is_params_nul(p, nul.position())
                },
            },
    {
        let HttpParams { headers, post_field, body } = p;
        let post = match post_field {
            Some(s) => {
                match HostString::new(s.as_str()) {
                    Ok(field) => Some(field),
                    Err(nul) => {
                        return Err(NetError::Nul(nul));
                    },
                }
            },
            None => None,
        };
        let mut headers_cs: Vec<HostString> = Vec::new();
        let mut i: usize = 0;
        while i < headers.len()
            invariant
                i <= headers.len(),
                headers == p.headers,
                headers_cs@.len() == i,
                post_field_bytes(p) matches Some(field) ==> !has_nul(field),
                forall|j: int| 0 <= j < i ==> !has_nul(#[trigger] header_bytes(p)[j]),
                forall|j: int| 0 <= j < i ==> (#[trigger] headers_cs@[j])@ == header_bytes(p)[j],
            decreases headers.len() - i,
        {
            match HostString::new(headers[i].as_str()) {
                Ok(h) => {
                    headers_cs.push(h);
                },
                Err(nul) => {
                    assert(is_first_nul(header_bytes(p)[i as int], nul.position()));
                    assert(has_nul(header_bytes(p)[i as int]));
                    return Err(NetError::Nul(nul));
                },
            }
            i += 1;
        }
        let owned = OwnedFfiParams { post_field: post, headers: headers_cs, body };
        assert(owned@.headers =~= header_bytes(p));
        Ok(owned)
    }

    /// The form field, or `None` where the host is to read a null pointer.
    pub fn post_field(&self) -> (field: Option<&HostString>)
        ensures
            match field {
                Some(f) => self@.post_field == Some(f@),
                None => self@.post_field is None,
            },
    {
        self.post_field.as_ref()
    }

    /// The number of headers as the host counts them, in 32 bits.
    pub fn header_count(&self) -> (count: u32)
        ensures
            count == self@.headers.len() % 0x1_0000_0000,
    {
        (self.headers.len() as u64 % 0x1_0000_0000u64) as u32
    }

    /// The headers in order. Where there is none the host is to read a null
    /// pointer.
    pub fn headers(&self) -> (headers: &Vec<HostString>)
        ensures
            headers@.len() == self@.headers.len(),
            forall|i: int| 0 <= i < headers@.len() ==> (#[trigger] headers@[i])@ == self@.headers[i],
    {
        &self.headers
    }

    /// The body, or `None` for an empty one, where the host is to read a
    /// null pointer.
    pub fn body(&self) -> (body: Option<&[u8]>)
        ensures
            match body {
                Some(bytes) => bytes@ == self@.body && self@.body.len() > 0,
                None => self@.body.len() == 0,
            },
    {
        if self.body.len() == 0 {
            None
        } else {
            Some(self.body.as_slice())
        }
    }

    /// The size of the body as the host counts it, in 32 bits.
    pub fn data_size(&self) -> (size: u32)
        ensures
            size == self@.body.len() % 0x1_0000_0000,
    {
        (self.body.len() as u64 % 0x1_0000_0000u64) as u32
    }
}

impl HttpParams {
    /// Encodes the parameters for the host.
    pub fn into_ffi(self) -> (owned: NetResult<OwnedFfiParams>)
        ensures
            match owned {
                Ok(params) => is_encodable(self) && params@ == encoded(self),
                Err(e) => {
                    &&& !is_encodable(self)
                    &&& e matches NetError::Nul(nul)
                    &&& is_params_nul(self, nul.position())
                },
            },
    {
        OwnedFfiParams::new(self)
    }
}

/// The requests that are under way, by the identifiers the host assigned:
/// the completion callback of each and the parameters the host reads.
pub struct PendingRequests<H> {
    handlers: HashMap<FsNetworkRequestId, H>,
    params: HashMap<FsNetworkRequestId, OwnedFfiParams>,
}

impl<H> PendingRequests<H> {
    /// The completion callbacks by request.
    pub closed spec fn handlers(&self) -> Map<FsNetworkRequestId, H> {
        self.handlers@
    }

    /// The parameters kept alive, by request.
    pub closed spec fn params(&self) -> Map<FsNetworkRequestId, ParamsView> {
        self.params@.map_values(|p: OwnedFfiParams| p@)
    }

    /// No requests.
    pub fn new() -> (pending: Self)
        ensures
            pending.handlers() == Map::<FsNetworkRequestId, H>::empty(),
            pending.params() == Map::<FsNetworkRequestId, ParamsView>::empty(),
    {
        let pending = PendingRequests { handlers: HashMap::new(), params: HashMap::new() };
        assert(pending.params() =~= Map::<FsNetworkRequestId, ParamsView>::empty());
        pending
    }

    /// Whether a completion callback is kept for `id`.
    pub fn has_handler(&self, id: FsNetworkRequestId) -> (kept: bool)
        ensures
            kept == self.handlers().contains_key(id),
    {
        self.handlers.contains_key(&id)
    }

    /// Whether parameters are kept alive for `id`.
    pub fn has_params(&self, id: FsNetworkRequestId) -> (kept: bool)
        ensures
            kept == self.params().contains_key(id),
    {
        self.params.contains_key(&id)
    }
}

/// Keeps `params` alive under `id`.
pub fn keep_params_alive<H>(pending: &mut PendingRequests<H>, id: FsNetworkRequestId, params: OwnedFfiParams)
    ensures
        final(pending).params() == old(pending).params().insert(id, params@),
        final(pending).handlers() == old(pending).handlers(),
{
    pending.params.insert(id, params);
    assert(pending.params() =~= old(pending).params().insert(id, params@));
}

/// Lets go of the parameters kept under `id`, if there are any.
pub fn drop_params<H>(pending: &mut PendingRequests<H>, id: FsNetworkRequestId)
    ensures
        final(pending).params() == old(pending).params().remove(id),
        final(pending).handlers() == old(pending).handlers(),
{
    let _ = pending.params.remove(&id);
    assert(pending.params() =~= old(pending).params().remove(id));
}

/// A request that is ready to be handed to the host.
pub struct HttpCall<H> {
    method: Method,
    url: HostString,
    params: OwnedFfiParams,
    on_done: H,
}

impl<H> HttpCall<H> {
    /// The method of the request.
    pub closed spec fn method(&self) -> Method {
        self.method
    }

    /// The URL, without its closing zero.
    pub closed spec fn url(&self) -> Seq<u8> {
        self.url@
    }

    /// The parameters as the host reads them.
    pub closed spec fn params(&self) -> ParamsView {
        self.params@
    }

    /// The completion callback.
    pub closed spec fn on_done(&self) -> H {
        self.on_done
    }

    /// The method of the request, which selects the host call to make.
    pub fn http_method(&self) -> (method: Method)
        ensures
            method == self.method(),
    {
        self.method
    }

    /// The URL of the request.
    pub fn url_ref(&self) -> (url: &HostString)
        ensures
            url@ == self.url(),
    {
        &self.url
    }

    /// The parameters of the request.
    pub fn params_ref(&self) -> (params: &OwnedFfiParams)
        ensures
            params@ == self.params(),
    {
        &self.params
    }

    /// Takes the failure code with which the host refused the request. The
    /// parameters and the completion callback are let go at once: nothing
    /// was kept for the request, and no completion will come for it.
    pub fn refused(self, code: i32) -> (error: NetError)
        ensures
            error == NetError::Msfs(code),
    {
        NetError::Msfs(code)
    }

    /// Takes the identifier the host assigned to the request. From here on
    /// the parameters and the completion callback are kept under it.
    pub fn sent(self, pending: &mut PendingRequests<H>, id: FsNetworkRequestId) -> (assigned:
        FsNetworkRequestId)
        ensures
            assigned == id,
            final(pending).params() == old(pending).params().insert(id, self.params()),
            final(pending).handlers() == old(pending).handlers().insert(id, self.on_done()),
    {
        let HttpCall { method: _, url: _, params, on_done } = self;
        keep_params_alive(pending, id, params);
        pending.handlers.insert(id, on_done);
        id
    }
}

/// Prepares a request. The URL is encoded first, then the parameters; a zero
/// byte in any of them fails the request before the host sees anything.
pub fn http_request<H>(method: Method, url: &str, params: HttpParams, on_done: H) -> (prepared:
    NetResult<HttpCall<H>>)
    ensures
        match prepared {
            Ok(call) => {
                &&& !has_nul(url.spec_bytes())
                &&& is_encodable(params)
                &&& call.method() == method
                &&& call.url() == url.spec_bytes()
                &&& call.params() == encoded(params)
                &&& call.on_done() == on_done
            },
            Err(e) => {
                &&& e matches NetError::Nul(nul)
                &&& if has_nul(url.spec_bytes()) {
                    is_first_nul(url.spec_bytes(), nul.position())
                } else {
                    !is_encodable(params) && is_params_nul(params, nul.position())
                }
            },
        },
{
    let url_c = match HostString::new(url) {
        Ok(u) => u,
        Err(nul) => {
            return Err(NetError::Nul(nul));
        },
    };
    let owned = match params.into_ffi() {
        Ok(o) => o,
        Err(e) => {
            return Err(e);
        },
    };
    Ok(HttpCall { method, url: url_c, params: owned, on_done })
}

/// Entry point for a completed request. Builds the response from the
/// buffer the host offers for the request, which is empty for a null address
/// or a size of zero, lets go of the request's parameters, and takes its
/// completion callback out. The callback is returned with the response it is
/// to be called with; nothing of the request is kept.
pub fn http_trampoline<H>(
    pending: &mut PendingRequests<H>,
    request_id: FsNetworkRequestId,
    error_code: i32,
    data_addr: usize,
    data_size: u32,
    mem: &[u8],
) -> (fired: (HttpResponse, Option<H>))
    ensures
        fired.0.request_id == request_id,
        fired.0.error_code == error_code,
        fired.0.data@ == payload_of(data_addr, data_size as int, mem@),
        fired.1 == handler_of(old(pending).handlers(), request_id),
        final(pending).params() == old(pending).params().remove(request_id),
        final(pending).handlers() == old(pending).handlers().remove(request_id),
{
    let data = slice_to_vec(payload(data_addr, data_size as i64, mem));
    let resp = HttpResponse { request_id, error_code, data };
    drop_params(pending, request_id);
    let handler = pending.handlers.remove(&request_id);
    (resp, handler)
}

/// The callback a completion for `id` finds among `handlers`.
pub open spec fn handler_of<H>(handlers: Map<FsNetworkRequestId, H>, id: FsNetworkRequestId) -> Option<
    H,
> {
    if handlers.contains_key(id) {
        Some(handlers[id])
    } else {
        None
    }
}

/// A request completes once. The completion of a request that was sent
/// under a fresh identifier finds the callback and the parameters that were
/// kept for it, and leaves both tables as they were before the request. A
/// second completion under the same identifier finds neither.
pub proof fn lemma_request_completes_once<H>(
    handlers: Map<FsNetworkRequestId, H>,
    params: Map<FsNetworkRequestId, ParamsView>,
    id: FsNetworkRequestId,
    on_done: H,
    kept: ParamsView,
)
    requires
        !handlers.contains_key(id),
        !params.contains_key(id),
    ensures
        handler_of(handlers.insert(id, on_done), id) == Some(on_done),
        params.insert(id, kept)[id] == kept,
        handlers.insert(id, on_done).remove(id) == handlers,
        params.insert(id, kept).remove(id) == params,
        handler_of(handlers.insert(id, on_done).remove(id), id) is None,
        !params.insert(id, kept).remove(id).contains_key(id),
{
    assert(handlers.insert(id, on_done).remove(id) =~= handlers);
    assert(params.insert(id, kept).remove(id) =~= params);
}

} // verus!
