use crate::clock::now;
use crate::ident::{new_id, parse_id, uuid_parse};
use crate::message::{author_of, fresh_message, Message, MessageIncoming, MessageView, Timestamp};
use crate::response::{has_cors, is_plain, plain, Body, BodyView, Payload, Reply};
use crate::routing::{route, route_for, segments, Method, Route, RouteView};
use crate::store::{lists_exactly, sorted_by_creation, views, wooped, Store};
use vstd::prelude::*;
use vstd::string::*;

verus! {

/// The text of the answer to `GET /`.
pub open spec fn index_text() -> Seq<char> {
    "Try /messages"@
}

/// The text sent when a create request's body is not a valid message.
pub open spec fn decode_failure_text() -> Seq<char> {
    "Could not decode JSON"@
}

/// `r` hands out every message of `m`, earliest first.
pub open spec fn is_listing(r: Reply, m: Map<u128, MessageView>) -> bool {
    match r {
        Reply::Encode(Payload::Many(v)) => lists_exactly(views(v@), m) && sorted_by_creation(
            views(v@),
        ),
        _ => false,
    }
}

/// `r` hands out the message `v`.
pub open spec fn is_single(r: Reply, v: MessageView) -> bool {
    match r {
        Reply::Encode(Payload::One(m)) => m@ == v,
        _ => false,
    }
}

/// A create request as mathematical values: the text and the optional author.
pub open spec fn incoming_view(body: Option<MessageIncoming>) -> Option<
    (Seq<char>, Option<Seq<char>>),
> {
    match body {
        Some(b) => Some((b.text@, b.user_view())),
        None => None,
    }
}

/// What a create request with decoded body `body` does to the store (`before`
/// to `after`) and answers (`r`), whatever identifier and time were drawn:
/// a body that did not decode is refused with 400 and changes nothing;
/// otherwise one message with that text and author and no woops is stored
/// under its identifier and handed out.
pub open spec fn create_outcome(
    before: Map<u128, MessageView>,
    after: Map<u128, MessageView>,
    body: Option<(Seq<char>, Option<Seq<char>>)>,
    r: Reply,
) -> bool {
    match body {
        None => after == before && is_plain(r, 400, BodyView::Text(decode_failure_text())),
        Some((text, user)) => match r {
            Reply::Encode(Payload::One(m)) => {
                &&& m@.text == text
                &&& m@.user == author_of(user)
                &&& m@.woops == 0
                &&& after == before.insert(m.id, m@)
            },
            _ => false,
        },
    }
}

/// What a woop on identifier `id` (`None`: the path segment named none) does
/// to the store and answers: where a message has that identifier, one more
/// woop is counted and the message handed out; otherwise 404 and no change.
pub open spec fn woop_outcome(
    before: Map<u128, MessageView>,
    after: Map<u128, MessageView>,
    id: Option<u128>,
    r: Reply,
) -> bool {
    match id {
        Some(i) if before.contains_key(i) => after == wooped(before, i) && is_single(r, after[i]),
        _ => after == before && is_plain(r, 404, BodyView::Empty),
    }
}

/// A finished reply carries the cross-origin headers; a payload gets them
/// when it is encoded (see `json_response`).
pub open spec fn finished_with_cors(r: Reply) -> bool {
    match r {
        Reply::Done(resp) => has_cors(resp),
        Reply::Encode(_) => true,
    }
}

/// The answer to a create request whose body is no valid message.
fn refuse_body() -> (r: Reply)
    ensures
        is_plain(r, 400, BodyView::Text(decode_failure_text())),
{
    plain(400, Body::Text(String::from_str("Could not decode JSON")))
}

/// Lists every stored message, earliest first.
pub fn handle_list(store: &Store) -> (r: Reply)
    requires
        store.wf(),
    ensures
        is_listing(r, store@),
{
    Reply::Encode(Payload::Many(store.list()))
}

/// Creates a message from a decoded body (`None`: the body was no valid
/// message) under identifier `id`, created at `created`.
pub fn handle_create_with(
    store: &mut Store,
    body: Option<MessageIncoming>,
    id: u128,
    created: Timestamp,
) -> (r: Reply)
    requires
        old(store).wf(),
    ensures
        final(store).wf(),
        create_outcome(old(store)@, final(store)@, incoming_view(body), r),
        match incoming_view(body) {
            Some((text, user)) => {
                let v = fresh_message(text, user, id, created);
                &&& final(store)@ == old(store)@.insert(id, v)
                &&& is_single(r, v)
            },
            None => true,
        },
{
    match body {
        Some(msg) => {
            let m = Message::from_parts(msg, id, created);
            store.insert(m.duplicate());
            Reply::Encode(Payload::One(m))
        },
        None => refuse_body(),
    }
}

/// Creates a message from a decoded body (`None`: the body was no valid
/// message), with a fresh random identifier and the current time.
pub fn handle_create(store: &mut Store, body: Option<MessageIncoming>) -> (r: Reply)
    requires
        old(store).wf(),
    ensures
        final(store).wf(),
        create_outcome(old(store)@, final(store)@, incoming_view(body), r),
{
    match body {
        Some(msg) => {
            let id = new_id();
            let created = now();
            handle_create_with(store, Some(msg), id, created)
        },
        None => refuse_body(),
    }
}

/// Counts a woop on the message with identifier `id` (`None`: the request
/// named no valid identifier).
pub fn handle_woop_parsed(store: &mut Store, id: Option<u128>) -> (r: Reply)
    requires
        old(store).wf(),
    ensures
        final(store).wf(),
        woop_outcome(old(store)@, final(store)@, id, r),
{
    match id {
        Some(i) => match store.woop(i) {
            Some(m) => Reply::Encode(Payload::One(m)),
            None => plain(404, Body::Empty),
        },
        None => plain(404, Body::Empty),
    }
}

/// Counts a woop on the message whose identifier is written in `segment`.
pub fn handle_woop(store: &mut Store, segment: &str) -> (r: Reply)
    requires
        old(store).wf(),
    ensures
        final(store).wf(),
        woop_outcome(old(store)@, final(store)@, uuid_parse(segment@), r),
{
    let id = parse_id(segment);
    handle_woop_parsed(store, id)
}

/// Answers a request with method `method` on `path`; `body` is its body
/// decoded as a create request (`None` where it is no valid one).
pub fn dispatch(store: &mut Store, method: Method, path: &str, body: Option<MessageIncoming>) -> (r:
    Reply)
    requires
        old(store).wf(),
    ensures
        final(store).wf(),
        finished_with_cors(r),
        match route_for(method, segments(path@)) {
            RouteView::Preflight => final(store)@ == old(store)@ && is_plain(r, 200, BodyView::Empty),
            RouteView::Index => final(store)@ == old(store)@ && is_plain(
                r,
                200,
                BodyView::Text(index_text()),
            ),
            RouteView::List => final(store)@ == old(store)@ && is_listing(r, old(store)@),
            RouteView::Create => create_outcome(
                old(store)@,
                final(store)@,
                incoming_view(body),
                r,
            ),
            RouteView::Woop(seg) => woop_outcome(old(store)@, final(store)@, uuid_parse(seg), r),
            RouteView::Unmatched => final(store)@ == old(store)@ && is_plain(
                r,
                404,
                BodyView::Empty,
            ),
        },
{
    match route(method, path) {
        Route::Preflight => plain(200, Body::Empty),
        Route::Index => plain(200, Body::Text(String::from_str("Try /messages"))),
        Route::List => handle_list(store),
        Route::Create => handle_create(store, body),
        Route::Woop(seg) => handle_woop(store, seg.as_str()),
        Route::Unmatched => plain(404, Body::Empty),
    }
}

} // verus!
