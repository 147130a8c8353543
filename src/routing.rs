use vstd::prelude::*;
use vstd::string::*;

verus! {

/// The request methods that the service tells apart.
#[derive(Clone, Copy, Debug, PartialEq, Eq, Structural)]
pub enum Method {
    Options,
    Get,
    Post,
    Other,
}

/// The rule that a request falls under.
pub enum Route {
    /// Cross-origin pre-flight: answered with the headers alone.
    Preflight,
    /// `GET /`.
    Index,
    /// `GET /messages`.
    List,
    /// `POST /messages`.
    Create,
    /// `POST /messages/{id}/woop`, with the `{id}` segment as sent.
    Woop(String),
    /// Anything else.
    Unmatched,
}

/// A route as a mathematical value.
pub enum RouteView {
    Preflight,
    Index,
    List,
    Create,
    Woop(Seq<char>),
    Unmatched,
}

impl View for Route {
    type V = RouteView;

    open spec fn view(&self) -> RouteView {
        match self {
            Route::Preflight => RouteView::Preflight,
            Route::Index => RouteView::Index,
            Route::List => RouteView::List,
            Route::Create => RouteView::Create,
            Route::Woop(id) => RouteView::Woop(id@),
            Route::Unmatched => RouteView::Unmatched,
        }
    }
}

/// The characters of `s` from `a` up to `b` as one segment, or no segment
/// where that stretch is empty.
pub open spec fn piece(s: Seq<char>, a: int, b: int) -> Seq<Seq<char>> {
    if a < b {
        seq![s.subrange(a, b)]
    } else {
        seq![]
    }
}

/// The segments of `s` from position `i` on, where the segment under way
/// began at `start`.
pub open spec fn split_from(s: Seq<char>, start: int, i: int) -> Seq<Seq<char>>
    decreases s.len() - i,
{
    if i >= s.len() {
        piece(s, start, s.len() as int)
    } else if s[i] == '/' {
        piece(s, start, i) + split_from(s, i + 1, i + 1)
    } else {
        split_from(s, start, i + 1)
    }
}

/// The non-empty runs of characters between slashes in a path, in order.
pub open spec fn segments(path: Seq<char>) -> Seq<Seq<char>> {
    split_from(path, 0, 0)
}

/// The rule for a request with method `m` on a path with segments `segs`.
pub open spec fn route_for(m: Method, segs: Seq<Seq<char>>) -> RouteView {
    if m == Method::Options {
        RouteView::Preflight
    } else if m == Method::Get && segs.len() == 0 {
        RouteView::Index
    } else if m == Method::Get && segs =~= seq!["messages"@] {
        RouteView::List
    } else if m == Method::Post && segs =~= seq!["messages"@] {
        RouteView::Create
    } else if m == Method::Post && segs.len() == 3 && segs[0] == "messages"@ && segs[2] == "woop"@ {
        RouteView::Woop(segs[1])
    } else {
        RouteView::Unmatched
    }
}

/// The views of a sequence of strings.
pub open spec fn texts(v: Seq<String>) -> Seq<Seq<char>> {
    v.map_values(|s: String| s@)
}

/// Whether `s` holds exactly the characters of `w`.
pub fn same_text(s: &str, w: &str) -> (r: bool)
    ensures
        r == (s@ == w@),
{
    let n = s.unicode_len();
    if n != w.unicode_len() {
        return false;
    }
    let mut i: usize = 0;
    while i < n
        invariant
            n == s@.len(),
            n == w@.len(),
            i <= n,
            forall|j: int| 0 <= j < i ==> s@[j] == w@[j],
        decreases n - i,
    {
        if s.get_char(i) != w.get_char(i) {
            return false;
        }
        i = i + 1;
    }
    assert(s@ =~= w@);
    true
}

/// Splits a path at its slashes and keeps the non-empty segments.
pub fn split_path(path: &str) -> (r: Vec<String>)
    ensures
        texts(r@) == segments(path@),
{
    let n = path.unicode_len();
    let mut out: Vec<String> = Vec::new();
    let mut start: usize = 0;
    let mut i: usize = 0;
    while i < n
        invariant
            n == path@.len(),
            start <= i <= n,
            texts(out@) + split_from(path@, start as int, i as int) == segments(path@),
        decreases n - i,
    {
        if path.get_char(i) == '/' {
            let ghost prev = texts(out@);
            if start < i {
                let seg = String::from_str(path.substring_char(start, i));
                out.push(seg);
                assert(texts(out@) =~= prev + piece(path@, start as int, i as int));
            } else {
                assert(texts(out@) =~= prev + piece(path@, start as int, i as int));
            }
            assert(texts(out@) + split_from(path@, i + 1, i + 1) =~= prev + split_from(
                path@,
                start as int,
                i as int,
            ));
            start = i + 1;
        }
        i = i + 1;
    }
    let ghost prev = texts(out@);
    if start < n {
        let seg = String::from_str(path.substring_char(start, n));
        out.push(seg);
    }
    assert(texts(out@) =~= prev + piece(path@, start as int, n as int));
    assert(texts(out@) =~= prev + split_from(path@, start as int, n as int));
    out
}

/// The rule for a request with method `method` on `path`.
pub fn route(method: Method, path: &str) -> (r: Route)
    ensures
        r@ == route_for(method, segments(path@)),
{
    if method == Method::Options {
        return Route::Preflight;
    }
    let segs = split_path(path);
    let ghost sv = texts(segs@);
    assert(sv.len() == segs.len());
    if method == Method::Get && segs.len() == 0 {
        Route::Index
    } else if segs.len() == 1 && same_text(segs[0].as_str(), "messages") {
        assert(sv =~= seq!["messages"@]);
        if method == Method::Get {
            Route::List
        } else if method == Method::Post {
            Route::Create
        } else {
            Route::Unmatched
        }
    } else if method == Method::Post && segs.len() == 3 && same_text(segs[0].as_str(), "messages")
        && same_text(segs[2].as_str(), "woop") {
        Route::Woop(segs[1].clone())
    } else {
        proof {
            if segs.len() == 1 {
                assert(sv[0] == segs@[0]@);
                assert(sv =~= seq!["messages"@] ==> sv[0] == "messages"@);
            }
        }
        Route::Unmatched
    }
}

} // verus!
