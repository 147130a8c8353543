use mini_woop::message::{Message, MessageIncoming, Timestamp};
use mini_woop::response::{json_response, Body, Header, Payload, Reply, Response};
use mini_woop::routing::{route, split_path, Method, Route};
use mini_woop::service::{
    dispatch, handle_create, handle_create_with, handle_list, handle_woop, handle_woop_parsed,
};
use mini_woop::store::Store;

fn incoming(text: &str, user: Option<&str>) -> Option<MessageIncoming> {
    Some(MessageIncoming { text: text.to_string(), user: user.map(|u| u.to_string()) })
}

fn single(r: Reply) -> Message {
    match r {
        Reply::Encode(Payload::One(m)) => m,
        _ => panic!("expected one message"),
    }
}

fn many(r: Reply) -> Vec<Message> {
    match r {
        Reply::Encode(Payload::Many(v)) => v,
        _ => panic!("expected a list"),
    }
}

fn done(r: Reply) -> Response {
    match r {
        Reply::Done(resp) => resp,
        _ => panic!("expected a finished response"),
    }
}

fn assert_cors(headers: &[Header]) {
    let got: Vec<(&str, &str)> =
        headers.iter().map(|h| (h.name.as_str(), h.value.as_str())).collect();
    assert_eq!(
        got,
        vec![
            ("Access-Control-Allow-Origin", "*"),
            ("Access-Control-Allow-Headers", "content-type"),
            ("Access-Control-Max-Age", "3600"),
            ("Access-Control-Allow-Methods", "GET, POST, PUT"),
        ]
    );
}

fn hyphenated(id: u128) -> String {
    let h = format!("{:032x}", id);
    format!("{}-{}-{}-{}-{}", &h[0..8], &h[8..12], &h[12..16], &h[16..20], &h[20..32])
}

fn at(secs: i64, nanos: u32) -> Timestamp {
    Timestamp { secs, nanos }
}

#[test]
fn create_keeps_text_and_user() {
    let mut store = Store::new();
    let m = single(handle_create(&mut store, incoming("hello", Some("bob"))));
    assert_eq!(m.text, "hello");
    assert_eq!(m.user, "bob");
    assert_eq!(m.woops, 0);
    assert_eq!(store.len(), 1);
}

#[test]
fn create_defaults_user_to_anonym() {
    let mut store = Store::new();
    let m = single(handle_create(&mut store, incoming("hi", None)));
    assert_eq!(m.user, "Anonym");
    assert_eq!(m.text, "hi");
    assert_eq!(m.woops, 0);
}

#[test]
fn create_draws_distinct_version_four_ids() {
    let mut store = Store::new();
    let a = single(handle_create(&mut store, incoming("a", None)));
    let b = single(handle_create(&mut store, incoming("b", None)));
    assert_ne!(a.id, b.id);
    assert_eq!((a.id >> 76) & 0xf, 4);
    assert_eq!((a.id >> 62) & 0x3, 2);
    assert!(a.created.secs > 0);
    assert_eq!(store.len(), 2);
}

#[test]
fn create_with_given_id_and_time() {
    let mut store = Store::new();
    let m = single(handle_create_with(&mut store, incoming("x", Some("ann")), 42, at(7, 9)));
    assert_eq!(m.id, 42);
    assert_eq!(m.created, at(7, 9));
    assert_eq!(m.user, "ann");
    let listed = many(handle_list(&store));
    assert_eq!(listed.len(), 1);
    assert_eq!(listed[0].id, 42);
}

#[test]
fn list_after_creates_is_sorted_and_complete() {
    let mut store = Store::new();
    let times = [at(5, 0), at(1, 10), at(3, 0), at(1, 2), at(9, 9), at(3, 0)];
    for (i, t) in times.iter().enumerate() {
        handle_create_with(&mut store, incoming("m", None), i as u128 + 1, *t);
    }
    let listed = many(handle_list(&store));
    assert_eq!(listed.len(), times.len());
    for w in listed.windows(2) {
        assert!(w[0].created.is_not_after(&w[1].created));
    }
    let mut ids: Vec<u128> = listed.iter().map(|m| m.id).collect();
    ids.sort();
    assert_eq!(ids, vec![1, 2, 3, 4, 5, 6]);
    assert_eq!(listed[0].id, 4);
    assert_eq!(listed[1].id, 2);
    assert_eq!(listed[5].id, 5);
}

#[test]
fn list_of_empty_store() {
    let store = Store::new();
    assert!(many(handle_list(&store)).is_empty());
}

#[test]
fn n_creates_give_n_entries() {
    let mut store = Store::new();
    for i in 0..25 {
        handle_create(&mut store, incoming(&format!("m{}", i), None));
    }
    let listed = many(dispatch(&mut store, Method::Get, "/messages", None));
    assert_eq!(listed.len(), 25);
    for w in listed.windows(2) {
        assert!(w[0].created.is_not_after(&w[1].created));
    }
}

#[test]
fn woop_counts_up() {
    let mut store = Store::new();
    let m = single(handle_create(&mut store, incoming("w", None)));
    let once = single(handle_woop_parsed(&mut store, Some(m.id)));
    assert_eq!(once.woops, 1);
    for k in 2..=5u64 {
        let again = single(handle_woop_parsed(&mut store, Some(m.id)));
        assert_eq!(again.woops, k);
        assert_eq!(again.text, "w");
    }
    let listed = many(handle_list(&store));
    assert_eq!(listed[0].woops, 5);
}

#[test]
fn woop_through_path() {
    let mut store = Store::new();
    let id: u128 = 0x936d_a01f_9abd_4d9d_80c7_02af_85c8_22a8;
    handle_create_with(&mut store, incoming("p", None), id, at(1, 0));
    let path = format!("/messages/{}/woop", hyphenated(id));
    let m = single(dispatch(&mut store, Method::Post, &path, None));
    assert_eq!(m.id, id);
    assert_eq!(m.woops, 1);
    let m = single(handle_woop(&mut store, "936DA01F9ABD4d9d80C702AF85C822A8"));
    assert_eq!(m.woops, 2);
}

#[test]
fn woop_on_invalid_id_is_not_found() {
    let mut store = Store::new();
    handle_create(&mut store, incoming("a", None));
    let r = done(handle_woop(&mut store, "not-a-uuid"));
    assert_eq!(r.status, 404);
    assert!(matches!(r.body, Body::Empty));
    assert_cors(&r.headers);
    let r = done(dispatch(&mut store, Method::Post, "/messages/not-a-uuid/woop", None));
    assert_eq!(r.status, 404);
}

#[test]
fn woop_on_unknown_id_is_not_found() {
    let mut store = Store::new();
    handle_create(&mut store, incoming("a", None));
    let r = done(handle_woop(&mut store, "00000000-0000-4000-8000-000000000000"));
    assert_eq!(r.status, 404);
    let r = done(handle_woop_parsed(&mut store, Some(7)));
    assert_eq!(r.status, 404);
    let r = done(handle_woop_parsed(&mut store, None));
    assert_eq!(r.status, 404);
    assert_eq!(many(handle_list(&store))[0].woops, 0);
}

#[test]
fn bad_create_body_is_refused() {
    let mut store = Store::new();
    handle_create(&mut store, incoming("keep", None));
    let r = done(dispatch(&mut store, Method::Post, "/messages", None));
    assert_eq!(r.status, 400);
    match &r.body {
        Body::Text(t) => assert_eq!(t, "Could not decode JSON"),
        _ => panic!("expected a text body"),
    }
    assert_cors(&r.headers);
    assert_eq!(store.len(), 1);
    assert_eq!(many(handle_list(&store)).len(), 1);
}

#[test]
fn every_finished_response_has_cors_headers() {
    let mut store = Store::new();
    let paths = [
        (Method::Options, "/anything/at/all"),
        (Method::Options, "/messages"),
        (Method::Get, "/"),
        (Method::Get, "/nope"),
        (Method::Post, "/messages/x/woop"),
        (Method::Other, "/messages"),
        (Method::Post, "/messages"),
    ];
    for (m, p) in paths.iter() {
        let r = done(dispatch(&mut store, *m, p, None));
        assert_cors(&r.headers);
    }
    assert_cors(&json_response(Some(vec![1, 2])).headers);
    assert_cors(&json_response(None).headers);
}

#[test]
fn preflight_is_empty_ok() {
    let mut store = Store::new();
    let r = done(dispatch(&mut store, Method::Options, "/messages/1/woop", None));
    assert_eq!(r.status, 200);
    assert!(matches!(r.body, Body::Empty));
}

#[test]
fn index_points_to_messages() {
    let mut store = Store::new();
    let r = done(dispatch(&mut store, Method::Get, "/", None));
    assert_eq!(r.status, 200);
    match &r.body {
        Body::Text(t) => assert_eq!(t, "Try /messages"),
        _ => panic!("expected a text body"),
    }
}

#[test]
fn unmatched_routes_are_not_found() {
    let mut store = Store::new();
    for (m, p) in [
        (Method::Get, "/message"),
        (Method::Post, "/"),
        (Method::Get, "/messages/x/woop"),
        (Method::Post, "/woop/x/messages"),
        (Method::Post, "/messages/x/woop/extra"),
        (Method::Other, "/"),
    ] {
        let r = done(dispatch(&mut store, m, p, None));
        assert_eq!(r.status, 404);
        assert!(matches!(r.body, Body::Empty));
    }
    assert_eq!(store.len(), 0);
}

#[test]
fn json_response_outcomes() {
    let ok = json_response(Some(b"[]".to_vec()));
    assert_eq!(ok.status, 200);
    match &ok.body {
        Body::Json(b) => assert_eq!(b, b"[]"),
        _ => panic!("expected bytes"),
    }
    let bad = json_response(None);
    assert_eq!(bad.status, 500);
    match &bad.body {
        Body::Text(t) => assert_eq!(t, "Could not encode JSON"),
        _ => panic!("expected a text body"),
    }
}

#[test]
fn split_drops_empty_segments() {
    assert_eq!(split_path("/messages/abc/woop"), vec!["messages", "abc", "woop"]);
    assert_eq!(split_path("//messages///"), vec!["messages"]);
    assert!(split_path("/").is_empty());
    assert!(split_path("").is_empty());
    assert_eq!(split_path("a/é/b"), vec!["a", "é", "b"]);
}

#[test]
fn routes_by_method_and_segments() {
    assert!(matches!(route(Method::Get, "/"), Route::Index));
    assert!(matches!(route(Method::Get, "/messages"), Route::List));
    assert!(matches!(route(Method::Get, "/messages/"), Route::List));
    assert!(matches!(route(Method::Post, "//messages"), Route::Create));
    assert!(matches!(route(Method::Options, "/whatever"), Route::Preflight));
    match route(Method::Post, "/messages/abc/woop") {
        Route::Woop(s) => assert_eq!(s, "abc"),
        _ => panic!("expected a woop route"),
    }
    assert!(matches!(route(Method::Post, "/messages/abc"), Route::Unmatched));
    assert!(matches!(route(Method::Get, "/messages/abc/woop"), Route::Unmatched));
}

#[test]
fn timestamps_order() {
    assert!(at(1, 5).is_not_after(&at(2, 0)));
    assert!(at(1, 5).is_not_after(&at(1, 5)));
    assert!(!at(1, 6).is_not_after(&at(1, 5)));
    assert!(at(-3, 999).is_not_after(&at(0, 0)));
}

#[test]
fn message_from_parts() {
    let m = Message::from_parts(
        MessageIncoming { text: "t".to_string(), user: None },
        5,
        at(10, 20),
    );
    assert_eq!(m.id, 5);
    assert_eq!(m.user, "Anonym");
    assert_eq!(m.woops, 0);
    let d = m.duplicate();
    assert_eq!(d.text, "t");
    assert_eq!(d.created, at(10, 20));
}

#[test]
fn store_insert_replaces_same_id() {
    let mut store = Store::new();
    let a = Message::from_parts(MessageIncoming { text: "a".to_string(), user: None }, 1, at(1, 0));
    let b = Message::from_parts(MessageIncoming { text: "b".to_string(), user: None }, 1, at(2, 0));
    store.insert(a);
    store.insert(b);
    assert_eq!(store.len(), 1);
    assert_eq!(store.list()[0].text, "b");
    assert!(store.woop(2).is_none());
    assert_eq!(store.woop(1).map(|m| m.woops), Some(1));
}

#[test]
fn message_from_incoming_starts_unwooped() {
    let m = Message::from_incoming(MessageIncoming { text: "new".to_string(), user: Some("zoe".to_string()) });
    assert_eq!(m.text, "new");
    assert_eq!(m.user, "zoe");
    assert_eq!(m.woops, 0);
    assert_eq!((m.id >> 76) & 0xf, 4);
}
