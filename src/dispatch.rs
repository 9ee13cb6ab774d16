//! Request routing: from method and target to what the server does.

use vstd::prelude::*;
use vstd::string::*;
use vstd::utf8::*;
use crate::pasteid::{PasteID, ParseError, is_valid_id, parse_ok};
use crate::store::DeleteOutcome;
use crate::text::{same_text, push_bytes, push_text};

verus! {

/// The address under which pastes are published.
pub const BASE_URL: &'static str = "https://pasta.lol";

/// Request methods the server tells apart.
#[derive(Debug, Clone, Copy, PartialEq, Eq, Structural)]
pub enum Method {
    Get,
    Post,
    Delete,
    Other,
}

/// What the server does with a request.
pub enum Route {
    /// Send the usage text.
    Usage,
    /// Send the version string.
    Version,
    /// Send the content of this paste.
    Read(PasteID),
    /// Store the request body as a new paste.
    Create,
    /// Delete this paste, with the supplied secret if any.
    Remove(PasteID, Option<String>),
    /// Answer with this status and no body.
    Status(u16),
}

/// `b` without its leading `/` bytes.
pub open spec fn strip_slashes(b: Seq<u8>) -> Seq<u8>
    decreases b.len(),
{
    if b.len() > 0 && b[0] == 47 {
        strip_slashes(b.drop_first())
    } else {
        b
    }
}

/// The value of the first pair whose key is `key`.
pub open spec fn first_value(
    pairs: Seq<(Seq<char>, Seq<char>)>,
    key: Seq<char>,
) -> Option<Seq<char>>
    decreases pairs.len(),
{
    if pairs.len() == 0 {
        None
    } else if pairs[0].0 == key {
        Some(pairs[0].1)
    } else {
        first_value(pairs.drop_first(), key)
    }
}

/// Path and query pairs of a parsed URL, or `None` when it does not parse.
pub uninterp spec fn url_parts(s: Seq<char>) -> Option<(Seq<char>, Seq<(Seq<char>, Seq<char>)>)>;

/// The characters of each pair.
pub open spec fn pairs_view(v: Seq<(String, String)>) -> Seq<(Seq<char>, Seq<char>)> {
    v.map_values(|p: (String, String)| (p.0@, p.1@))
}

/// The characters of parsed URL parts.
pub open spec fn parts_view(
    o: Option<(String, Vec<(String, String)>)>,
) -> Option<(Seq<char>, Seq<(Seq<char>, Seq<char>)>)> {
    match o {
        Some((p, q)) => Some((p@, pairs_view(q@))),
        None => None,
    }
}

/// The characters of an optional string.
pub open spec fn opt_view(o: Option<String>) -> Option<Seq<char>> {
    match o {
        Some(s) => Some(s@),
        None => None,
    }
}

/// Relies on url::Url::parse (re-exported by hyper) with Url::path and
/// Url::query_pairs: the path and the decoded query pairs depend on the text alone.
#[verifier::external_body]
fn split_url(s: &str) -> (r: Option<(String, Vec<(String, String)>)>)
    ensures
        parts_view(r) == url_parts(s@),
{
    match hyper::Url::parse(s) {
        Ok(u) => Some((
            u.path().to_string(),
            u.query_pairs().map(|(k, v)| (k.into_owned(), v.into_owned())).collect(),
        )),
        Err(_) => None,
    }
}

/// The route owed for identifier bytes `t`: read or delete it when well-formed.
pub open spec fn id_route_ok(t: Seq<u8>, r: Route, secret: Option<Option<Seq<char>>>) -> bool {
    if is_valid_id(t) {
        match secret {
            None => r matches Route::Read(id) && id@ == t,
            Some(s) => r matches Route::Remove(id, given) && id@ == t && opt_view(given) == s,
        }
    } else {
        r == Route::Status(400)
    }
}

/// The route owed for a delete whose target parsed into `parts`.
pub open spec fn delete_route_ok(
    parts: Option<(Seq<char>, Seq<(Seq<char>, Seq<char>)>)>,
    r: Route,
) -> bool {
    match parts {
        None => r == Route::Status(400),
        Some((path, pairs)) => id_route_ok(
            strip_slashes(encode_utf8(path)),
            r,
            Some(first_value(pairs, "password"@)),
        ),
    }
}

/// The route owed for `method` on `target`.
pub open spec fn route_ok(method: Method, target: Seq<char>, r: Route) -> bool {
    match method {
        Method::Get => if target == "/"@ {
            r is Usage
        } else if target == "/favicon.ico"@ {
            r == Route::Status(404)
        } else if target == "/version"@ {
            r is Version
        } else {
            id_route_ok(strip_slashes(encode_utf8(target)), r, None)
        },
        Method::Post => if target == "/"@ {
            r is Create
        } else {
            r == Route::Status(400)
        },
        Method::Delete => delete_route_ok(url_parts(BASE_URL@ + target), r),
        Method::Other => r == Route::Status(405),
    }
}

/// Number of leading `/` bytes of `b`.
fn leading_slashes(b: &[u8]) -> (k: usize)
    ensures
        k <= b@.len(),
        strip_slashes(b@) == b@.subrange(k as int, b@.len() as int),
{
    let mut k: usize = 0;
    assert(b@.subrange(0, b@.len() as int) =~= b@);
    while k < b.len() && b[k] == 47
        invariant
            k <= b@.len(),
            strip_slashes(b@) == strip_slashes(b@.subrange(k as int, b@.len() as int)),
        decreases b@.len() - k,
    {
        let ghost rest = b@.subrange(k as int, b@.len() as int);
        assert(rest.drop_first() =~= b@.subrange(k + 1, b@.len() as int));
        k = k + 1;
    }
    k
}

/// Parses `b`, without its leading `/` bytes, as an identifier.
fn parse_target(b: &[u8]) -> (r: Result<PasteID, ParseError>)
    ensures
        parse_ok(strip_slashes(b@), r),
{
    let k = leading_slashes(b);
    PasteID::parse_bytes(b, k)
}

/// The value of the first `password` pair.
pub fn find_password(pairs: &Vec<(String, String)>) -> (r: Option<String>)
    ensures
        opt_view(r) == first_value(pairs_view(pairs@), "password"@),
{
    let ghost all = pairs_view(pairs@);
    let mut i: usize = 0;
    assert(all.subrange(0, all.len() as int) =~= all);
    while i < pairs.len()
        invariant
            i <= pairs@.len(),
            all == pairs_view(pairs@),
            first_value(all, "password"@) == first_value(
                all.subrange(i as int, all.len() as int),
                "password"@,
            ),
        decreases pairs@.len() - i,
    {
        let ghost rest = all.subrange(i as int, all.len() as int);
        assert(rest[0] == (pairs@[i as int].0@, pairs@[i as int].1@));
        if same_text(pairs[i].0.as_str(), "password") {
            return Some(pairs[i].1.clone());
        }
        assert(rest.drop_first() =~= all.subrange(i + 1, all.len() as int));
        i = i + 1;
    }
    assert(all.subrange(i as int, all.len() as int).len() == 0);
    None
}

/// Routes a delete whose target parsed into `parts`.
pub fn route_delete(parts: Option<(String, Vec<(String, String)>)>) -> (r: Route)
    ensures
        delete_route_ok(parts_view(parts), r),
{
    match parts {
        None => Route::Status(400),
        Some((path, pairs)) => {
            let password = find_password(&pairs);
            match parse_target(path.as_str().as_bytes()) {
                Ok(id) => Route::Remove(id, password),
                Err(_) => Route::Status(400),
            }
        },
    }
}

/// Routes a request: `target` is the path with its query.
pub fn route(method: Method, target: &str) -> (r: Route)
    ensures
        route_ok(method, target@, r),
{
    match method {
        Method::Get => {
            if same_text(target, "/") {
                Route::Usage
            } else if same_text(target, "/favicon.ico") {
                Route::Status(404)
            } else if same_text(target, "/version") {
                Route::Version
            } else {
                match parse_target(target.as_bytes()) {
                    Ok(id) => Route::Read(id),
                    Err(_) => Route::Status(400),
                }
            }
        },
        Method::Post => {
            if same_text(target, "/") {
                Route::Create
            } else {
                Route::Status(400)
            }
        },
        Method::Delete => {
            let full = String::from_str(BASE_URL).concat(target);
            route_delete(split_url(full.as_str()))
        },
        Method::Other => Route::Status(405),
    }
}

/// The status that answers a delete.
pub fn delete_status(o: DeleteOutcome) -> (r: u16)
    ensures
        o == DeleteOutcome::Deleted ==> r == 200,
        o == DeleteOutcome::NotFound ==> r == 404,
        o == DeleteOutcome::Unauthorized ==> r == 401,
{
    match o {
        DeleteOutcome::Deleted => 200,
        DeleteOutcome::NotFound => 404,
        DeleteOutcome::Unauthorized => 401,
    }
}

/// The body that answers a create: a JSON object with the paste's `url` and its `pass`.
pub fn created_body(id: &PasteID, secret: &Vec<u8>) -> (r: Vec<u8>)
    ensures
        r@ == encode_utf8("{ \"url\": \"https://pasta.lol/"@) + id@ + encode_utf8(
            "\", \"pass\": \""@,
        ) + secret@ + encode_utf8("\"}\n"@),
{
    let mut v: Vec<u8> = Vec::new();
    push_text(&mut v, "{ \"url\": \"https://pasta.lol/");
    push_text(&mut v, id.as_str());
    push_text(&mut v, "\", \"pass\": \"");
    push_bytes(&mut v, secret.as_slice());
    push_text(&mut v, "\"}\n");
    v
}

} // verus!
