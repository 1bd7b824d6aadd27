use vstd::prelude::*;
use vstd::string::StrSliceExecFns;

verus! {

/// The verb of a request.
#[derive(Clone, Copy, Debug, PartialEq, Eq, Structural)]
pub enum Method {
    Get,
    Post,
    Put,
    Delete,
    /// Any verb that no route answers to.
    Other,
}

/// The operation that a request asks for, with the identifier taken from the
/// path where the route has one.
#[derive(Clone, Debug, PartialEq, Eq)]
pub enum Route {
    Index,
    ListUsers,
    GetUser(String),
    CreateUser,
    UpdateUser(String),
    DeleteUser(String),
    /// No route answers to the request.
    Unmatched,
}

/// What a `Route` holds.
pub enum RouteView {
    Index,
    ListUsers,
    GetUser(Seq<char>),
    CreateUser,
    UpdateUser(Seq<char>),
    DeleteUser(Seq<char>),
    Unmatched,
}

impl View for Route {
    type V = RouteView;

    open spec fn view(&self) -> RouteView {
        match self {
            Route::Index => RouteView::Index,
            Route::ListUsers => RouteView::ListUsers,
            Route::GetUser(id) => RouteView::GetUser(id@),
            Route::CreateUser => RouteView::CreateUser,
            Route::UpdateUser(id) => RouteView::UpdateUser(id@),
            Route::DeleteUser(id) => RouteView::DeleteUser(id@),
            Route::Unmatched => RouteView::Unmatched,
        }
    }
}

/// A path parameter: one or more characters, none of them a slash.
pub open spec fn is_segment(s: Seq<char>) -> bool {
    s.len() > 0 && forall|i: int| 0 <= i < s.len() ==> s[i] != '/'
}

/// Whether `path` begins with `prefix`.
pub open spec fn begins_with(path: Seq<char>, prefix: Seq<char>) -> bool {
    prefix.len() <= path.len() && path.subrange(0, prefix.len() as int) == prefix
}

/// What follows the first `prefix.len()` characters of `path`.
pub open spec fn rest(path: Seq<char>, prefix: Seq<char>) -> Seq<char>
    recommends
        prefix.len() <= path.len(),
{
    path.subrange(prefix.len() as int, path.len() as int)
}

/// Whether `path` is `prefix` followed by exactly one path parameter.
pub open spec fn is_under(path: Seq<char>, prefix: Seq<char>) -> bool {
    begins_with(path, prefix) && is_segment(rest(path, prefix))
}

/// The route of a request: the table of the service, with exact matches
/// only. A path that matches under another verb is unmatched.
pub open spec fn routed(method: Method, path: Seq<char>) -> RouteView {
    match method {
        Method::Get => {
            if path == "/"@ {
                RouteView::Index
            } else if path == "/users"@ {
                RouteView::ListUsers
            } else if is_under(path, "/users/"@) {
                RouteView::GetUser(rest(path, "/users/"@))
            } else {
                RouteView::Unmatched
            }
        },
        Method::Post => {
            if path == "/users/create"@ {
                RouteView::CreateUser
            } else {
                RouteView::Unmatched
            }
        },
        Method::Put => {
            if is_under(path, "/users/update/"@) {
                RouteView::UpdateUser(rest(path, "/users/update/"@))
            } else {
                RouteView::Unmatched
            }
        },
        Method::Delete => {
            if is_under(path, "/users/delete/"@) {
                RouteView::DeleteUser(rest(path, "/users/delete/"@))
            } else {
                RouteView::Unmatched
            }
        },
        Method::Other => RouteView::Unmatched,
    }
}

/// The characters of a text, one by one.
fn chars_of(s: &str) -> (r: Vec<char>)
    ensures
        r@ == s@,
{
    broadcast use vstd::string::axiom_spec_iter;

    let mut out: Vec<char> = Vec::new();
    for c in it: s.chars()
        invariant
            it.seq() == s@,
            out.len() == it.index(),
            forall|j: int| 0 <= j < out.len() ==> out@[j] == it.seq()[j],
    {
        out.push(c);
    }
    assert(out@ =~= s@);
    out
}

/// Compares the first characters of `path` with `prefix`.
fn has_prefix(path: &Vec<char>, prefix: &str) -> (r: bool)
    ensures
        r == begins_with(path@, prefix@),
{
    let head = chars_of(prefix);
    if head.len() > path.len() {
        return false;
    }
    let mut i: usize = 0;
    while i < head.len()
        invariant
            i <= head.len() <= path.len(),
            head@ == prefix@,
            forall|j: int| 0 <= j < i ==> path@[j] == head@[j],
        decreases head.len() - i,
    {
        if path[i] != head[i] {
            assert(path@.subrange(0, head.len() as int)[i as int] != head@[i as int]);
            return false;
        }
        i = i + 1;
    }
    assert(path@.subrange(0, head.len() as int) =~= head@);
    true
}

/// Whether `path` holds exactly the characters of `text`.
fn is_exactly(path: &Vec<char>, text: &str) -> (r: bool)
    ensures
        r == (path@ == text@),
{
    let r = has_prefix(path, text) && path.len() == text.unicode_len();
    proof {
        if path@.len() == text@.len() {
            assert(path@.subrange(0, text@.len() as int) =~= path@);
        }
    }
    r
}

/// The path parameter that follows `prefix` in the path, if the path has
/// that shape. `chars` holds the characters of `path`.
fn param_after(path: &str, chars: &Vec<char>, prefix: &str) -> (r: Option<String>)
    requires
        chars@ == path@,
    ensures
        r is Some <==> is_under(path@, prefix@),
        r is Some ==> r->0@ == rest(path@, prefix@),
{
    if !has_prefix(chars, prefix) {
        return None;
    }
    let n: usize = chars.len();
    let m: usize = prefix.unicode_len();
    if m == n {
        return None;
    }
    let ghost tail = rest(path@, prefix@);
    let mut i: usize = m;
    while i < n
        invariant
            m <= i <= n,
            m < n,
            n == path@.len(),
            chars@ == path@,
            m == prefix@.len(),
            tail == rest(path@, prefix@),
            forall|j: int| 0 <= j < i - m ==> tail[j] != '/',
        decreases n - i,
    {
        if chars[i] == '/' {
            assert(tail[i - m] == '/');
            return None;
        }
        i = i + 1;
    }
    Some(path.substring_char(m, n).to_owned())
}

/// Finds the route of a request from its verb and its path.
pub fn route(method: Method, path: &str) -> (r: Route)
    ensures
        r@ == routed(method, path@),
{
    let chars = chars_of(path);
    match method {
        Method::Get => {
            if is_exactly(&chars, "/") {
                Route::Index
            } else if is_exactly(&chars, "/users") {
                Route::ListUsers
            } else {
                match param_after(path, &chars, "/users/") {
                    Some(id) => Route::GetUser(id),
                    None => Route::Unmatched,
                }
            }
        },
        Method::Post => {
            if is_exactly(&chars, "/users/create") {
                Route::CreateUser
            } else {
                Route::Unmatched
            }
        },
        Method::Put => {
            match param_after(path, &chars, "/users/update/") {
                Some(id) => Route::UpdateUser(id),
                None => Route::Unmatched,
            }
        },
        Method::Delete => {
            match param_after(path, &chars, "/users/delete/") {
                Some(id) => Route::DeleteUser(id),
                None => Route::Unmatched,
            }
        },
        Method::Other => Route::Unmatched,
    }
}

} // verus!
