use vstd::prelude::*;

use crate::download::Download;
use crate::upload::Upload;

verus! {

/// Status for a successful download response.
pub const STATUS_OK: u16 = 200;

/// Status for a finished upload: success with an empty body.
pub const STATUS_NO_CONTENT: u16 = 204;

/// Status for a request whose size parameter is zero.
pub const STATUS_BAD_REQUEST: u16 = 400;

/// The decision for `GET /api/{size}`.
pub enum GetResponse {
    /// The request asked for zero bytes: rejected with an empty body, and
    /// no streaming begins.
    BadRequest,
    /// A body of exactly the requested length will be streamed.
    Stream(Download),
}

/// Decides `GET /api/{size}`: a zero size is rejected; any positive size
/// starts a download of exactly that many bytes.
pub fn handle_get(size: u64) -> (r: GetResponse)
    ensures
        size == 0 <==> r is BadRequest,
        r matches GetResponse::Stream(d) ==> d.wf() && d.size == size && d.sent == 0,
{
    if size == 0 {
        GetResponse::BadRequest
    } else {
        GetResponse::Stream(Download::new(size))
    }
}

impl GetResponse {
    /// The HTTP status this decision answers with.
    pub fn status(&self) -> (s: u16)
        ensures
            *self is BadRequest ==> s == STATUS_BAD_REQUEST,
            *self is Stream ==> s == STATUS_OK,
    {
        match self {
            GetResponse::BadRequest => STATUS_BAD_REQUEST,
            GetResponse::Stream(_) => STATUS_OK,
        }
    }

    /// The exact `Content-Length` declared up front, so clients can verify
    /// completeness; a rejected request declares none (its body is empty).
    pub fn content_length(&self) -> (n: Option<u64>)
        ensures
            match *self {
                GetResponse::BadRequest => n is None,
                GetResponse::Stream(d) => n == Some(d.size),
            },
    {
        match self {
            GetResponse::BadRequest => None,
            GetResponse::Stream(d) => Some(d.size),
        }
    }
}

/// The decision for `PUT /api/{size}`.
pub enum PutResponse {
    /// The request named a zero target: rejected with an empty body, and
    /// the request body is never read.
    BadRequest,
    /// The body will be consumed and discarded up to the target count.
    Sink(Upload),
}

/// Decides `PUT /api/{size}`: a zero size is rejected before any body byte
/// is read; any positive size starts a sink with that target.
pub fn handle_put(size: u64) -> (r: PutResponse)
    ensures
        size == 0 <==> r is BadRequest,
        r matches PutResponse::Sink(u) ==> u.size == size && u.received == 0,
{
    if size == 0 {
        PutResponse::BadRequest
    } else {
        PutResponse::Sink(Upload::new(size))
    }
}

impl PutResponse {
    /// The HTTP status for a rejected upload; an accepted one answers only
    /// after its sink finishes (see `Upload::response_status`).
    pub fn rejected_status(&self) -> (s: u16)
        requires
            *self is BadRequest,
        ensures
            s == STATUS_BAD_REQUEST,
    {
        STATUS_BAD_REQUEST
    }
}

} // verus!
