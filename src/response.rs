use crate::message::Message;
use vstd::prelude::*;
use vstd::string::*;

verus! {

/// One response header.
pub struct Header {
    pub name: String,
    pub value: String,
}

impl View for Header {
    type V = (Seq<char>, Seq<char>);

    open spec fn view(&self) -> (Seq<char>, Seq<char>) {
        (self.name@, self.value@)
    }
}

/// What a response carries.
pub enum Body {
    Empty,
    Text(String),
    Json(Vec<u8>),
}

/// A body as a mathematical value.
pub enum BodyView {
    Empty,
    Text(Seq<char>),
    Json(Seq<u8>),
}

impl View for Body {
    type V = BodyView;

    open spec fn view(&self) -> BodyView {
        match self {
            Body::Empty => BodyView::Empty,
            Body::Text(t) => BodyView::Text(t@),
            Body::Json(b) => BodyView::Json(b@),
        }
    }
}

/// A response: status code, headers and body.
pub struct Response {
    pub status: u16,
    pub headers: Vec<Header>,
    pub body: Body,
}

/// What is to be encoded as JSON for a response.
pub enum Payload {
    One(Message),
    Many(Vec<Message>),
}

/// What the service answers: a finished response, or a payload that is
/// still to be encoded (see `json_response`).
pub enum Reply {
    Done(Response),
    Encode(Payload),
}

/// The cross-origin headers that every response carries.
pub open spec fn cors_spec() -> Seq<(Seq<char>, Seq<char>)> {
    seq![
        ("Access-Control-Allow-Origin"@, "*"@),
        ("Access-Control-Allow-Headers"@, "content-type"@),
        ("Access-Control-Max-Age"@, "3600"@),
        ("Access-Control-Allow-Methods"@, "GET, POST, PUT"@),
    ]
}

/// The views of a sequence of headers.
pub open spec fn header_views(h: Seq<Header>) -> Seq<(Seq<char>, Seq<char>)> {
    h.map_values(|x: Header| x@)
}

/// `r` carries exactly the cross-origin headers.
pub open spec fn has_cors(r: Response) -> bool {
    header_views(r.headers@) == cors_spec()
}

/// `r` is a finished response with the cross-origin headers, `status` and
/// `body`.
pub open spec fn is_plain(r: Reply, status: u16, body: BodyView) -> bool {
    match r {
        Reply::Done(resp) => resp.status == status && resp.body@ == body && has_cors(resp),
        Reply::Encode(_) => false,
    }
}

/// The text sent when a payload could not be encoded.
pub open spec fn encode_failure_text() -> Seq<char> {
    "Could not encode JSON"@
}

fn header(name: &str, value: &str) -> (r: Header)
    ensures
        r@ == (name@, value@),
{
    Header { name: String::from_str(name), value: String::from_str(value) }
}

/// The cross-origin headers.
pub fn cors_headers() -> (r: Vec<Header>)
    ensures
        header_views(r@) == cors_spec(),
{
    let mut r: Vec<Header> = Vec::new();
    r.push(header("Access-Control-Allow-Origin", "*"));
    r.push(header("Access-Control-Allow-Headers", "content-type"));
    r.push(header("Access-Control-Max-Age", "3600"));
    r.push(header("Access-Control-Allow-Methods", "GET, POST, PUT"));
    assert(header_views(r@) =~= cors_spec());
    r
}

/// A finished response with the cross-origin headers.
pub fn plain(status: u16, body: Body) -> (r: Reply)
    ensures
        is_plain(r, status, body@),
{
    Reply::Done(Response { status, headers: cors_headers(), body })
}

/// The response for an encoded payload: the bytes with status 200, or, where
/// encoding failed (`None`), status 500 with a short text.
pub fn json_response(encoded: Option<Vec<u8>>) -> (r: Response)
    ensures
        has_cors(r),
        match encoded {
            Some(b) => r.status == 200 && r.body@ == BodyView::Json(b@),
            None => r.status == 500 && r.body@ == BodyView::Text(encode_failure_text()),
        },
{
    match encoded {
        Some(b) => Response { status: 200, headers: cors_headers(), body: Body::Json(b) },
        None => Response {
            status: 500,
            headers: cors_headers(),
            body: Body::Text(String::from_str("Could not encode JSON")),
        },
    }
}

} // verus!
