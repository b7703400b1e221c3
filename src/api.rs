//! The requests that the client sends, one builder per API operation, and
//! what is made of the envelope that comes back.
use vstd::prelude::*;
use crate::error::{is_rejection, ClientError};
use crate::response::{outcome_of, Outcome, Response};
use crate::text::{decimal, decimal_of, items_of, json_quoted, json_string, split_items};

verus! {

/// The file name given to an upload whose path has none.
pub const DEFAULT_FILENAME: &'static str = "default.md";

/// The multipart field that carries an uploaded file.
pub const UPLOAD_FIELD: &'static str = "content";

/// The response header that carries the token issued at login.
pub const TOKEN_HEADER: &'static str = "X-Auth-Token";

#[derive(Debug, Clone, Copy, PartialEq, Eq, Structural)]
pub enum Method {
    Get,
    Post,
    Put,
    Patch,
    Delete,
}

/// What a request carries besides its method and path.
#[derive(Debug)]
pub enum Body {
    Empty,
    /// A JSON document, as text.
    Json(String),
    /// A multipart form with one file part.
    Upload { field: String, file_name: String, content: Vec<u8> },
}

pub enum BodyView {
    Empty,
    Json(Seq<char>),
    Upload { field: Seq<char>, file_name: Seq<char>, content: Seq<u8> },
}

impl View for Body {
    type V = BodyView;

    open spec fn view(&self) -> BodyView {
        match self {
            Body::Empty => BodyView::Empty,
            Body::Json(s) => BodyView::Json(s@),
            Body::Upload { field, file_name, content } => BodyView::Upload {
                field: field@,
                file_name: file_name@,
                content: content@,
            },
        }
    }
}

/// A request to the API: the path is relative to the base URL, and the
/// bearer token is added where the request is sent.
#[derive(Debug)]
pub struct Request {
    pub method: Method,
    pub path: String,
    pub body: Body,
}

pub struct RequestView {
    pub method: Method,
    pub path: Seq<char>,
    pub body: BodyView,
}

impl View for Request {
    type V = RequestView;

    open spec fn view(&self) -> RequestView {
        RequestView { method: self.method, path: self.path@, body: self.body@ }
    }
}

pub open spec fn json_req(method: Method, path: Seq<char>, body: Seq<char>) -> RequestView {
    RequestView { method, path, body: BodyView::Json(body) }
}

pub open spec fn bare_req(method: Method, path: Seq<char>) -> RequestView {
    RequestView { method, path, body: BodyView::Empty }
}

/// The path of an article.
pub open spec fn article_path(uri: Seq<char>) -> Seq<char> {
    "/articles/"@ + uri
}

/// The JSON array of the given strings, in order.
pub open spec fn json_array_items(items: Seq<Seq<char>>) -> Seq<char>
    decreases items.len(),
{
    if items.len() == 0 {
        Seq::<char>::empty()
    } else if items.len() == 1 {
        json_quoted(items[0])
    } else {
        json_array_items(items.drop_last()) + ","@ + json_quoted(items.last())
    }
}

pub open spec fn login_req(password: Seq<char>) -> RequestView {
    json_req(Method::Post, "/authentication"@, "{\"password\":"@ + json_quoted(password) + "}"@)
}

pub open spec fn init_req(uri: Seq<char>, category: Seq<char>) -> RequestView {
    json_req(
        Method::Post,
        "/articles"@,
        "{\"uri\":"@ + json_quoted(uri) + ",\"category\":"@ + json_quoted(category) + "}"@,
    )
}

pub open spec fn visibility_req(uri: Seq<char>, visibility: bool) -> RequestView {
    json_req(
        Method::Patch,
        article_path(uri) + "/visibility"@,
        "{\"visibility\":"@ + (if visibility {
            "true"@
        } else {
            "false"@
        }) + "}"@,
    )
}

pub open spec fn category_req(uri: Seq<char>, category: Seq<char>) -> RequestView {
    json_req(
        Method::Patch,
        article_path(uri) + "/category"@,
        "{\"category\":"@ + json_quoted(category) + "}"@,
    )
}

pub open spec fn tags_req(uri: Seq<char>, tags: Seq<char>) -> RequestView {
    json_req(
        Method::Patch,
        article_path(uri) + "/tags"@,
        "{\"tags\":["@ + json_array_items(items_of(tags)) + "]}"@,
    )
}

pub open spec fn version_req(uri: Seq<char>, version: Seq<char>) -> RequestView {
    json_req(
        Method::Put,
        article_path(uri) + "/tags"@,
        "{\"version\":"@ + json_quoted(version) + "}"@,
    )
}

/// The query of an article listing: the page, then each filter that is given.
pub open spec fn list_query(
    page: u32,
    limit: Option<u32>,
    category: Option<Seq<char>>,
    tags: Option<Seq<char>>,
) -> Seq<char> {
    "page="@ + decimal_of(page as nat) + match limit {
        Some(l) => "&limit="@ + decimal_of(l as nat),
        None => Seq::<char>::empty(),
    } + match category {
        Some(c) => "&category="@ + c,
        None => Seq::<char>::empty(),
    } + match tags {
        Some(t) => "&tags="@ + t,
        None => Seq::<char>::empty(),
    }
}

fn json_request(method: Method, path: String, body: String) -> (r: Request)
    ensures
        r@ == json_req(method, path@, body@),
{
    Request { method, path, body: Body::Json(body) }
}

fn path_of(uri: &str, suffix: &str) -> (r: String)
    ensures
        r@ == article_path(uri@) + suffix@,
{
    let mut p = "/articles/".to_owned();
    p.append(uri);
    p.append(suffix);
    p
}

/// The login request: the password goes in the JSON body.
pub fn login(password: &str) -> (r: Request)
    ensures
        r@ == login_req(password@),
{
    let mut b = "{\"password\":".to_owned();
    b.append(json_string(password).as_str());
    b.append("}");
    json_request(Method::Post, "/authentication".to_owned(), b)
}

pub fn initializetion_article(uri: &str, category: &str) -> (r: Request)
    ensures
        r@ == init_req(uri@, category@),
{
    let mut b = "{\"uri\":".to_owned();
    b.append(json_string(uri).as_str());
    b.append(",\"category\":");
    b.append(json_string(category).as_str());
    b.append("}");
    json_request(Method::Post, "/articles".to_owned(), b)
}

pub fn delete_article(uri: &str) -> (r: Request)
    ensures
        r@ == bare_req(Method::Delete, article_path(uri@)),
{
    let mut p = "/articles/".to_owned();
    p.append(uri);
    Request { method: Method::Delete, path: p, body: Body::Empty }
}

/// An upload of `content` as a new version; `file_name` is the last
/// component of the source path, where it has one.
pub fn upload_new_version(uri: &str, file_name: Option<String>, content: Vec<u8>) -> (r: Request)
    ensures
        r.method == Method::Post,
        r.path@ == article_path(uri@) + "/versions"@,
        r.body@ == (BodyView::Upload {
            field: UPLOAD_FIELD@,
            file_name: match file_name {
                Some(n) => n@,
                None => DEFAULT_FILENAME@,
            },
            content: content@,
        }),
{
    let name = match file_name {
        Some(n) => n,
        None => DEFAULT_FILENAME.to_owned(),
    };
    Request {
        method: Method::Post,
        path: path_of(uri, "/versions"),
        body: Body::Upload { field: UPLOAD_FIELD.to_owned(), file_name: name, content },
    }
}

pub fn get_article_list(
    page: u32,
    limit: Option<u32>,
    category: Option<&str>,
    tags: Option<&str>,
) -> (r: Request)
    ensures
        r@ == bare_req(
            Method::Get,
            "/author/articles?"@ + list_query(
                page,
                limit,
                match category {
                    Some(c) => Some(c@),
                    None => None,
                },
                match tags {
                    Some(t) => Some(t@),
                    None => None,
                },
            ),
        ),
{
    let mut q = "/author/articles?page=".to_owned();
    q.append(decimal(page as u64).as_str());
    if let Some(l) = limit {
        q.append("&limit=");
        q.append(decimal(l as u64).as_str());
    }
    if let Some(c) = category {
        q.append("&category=");
        q.append(c);
    }
    if let Some(t) = tags {
        q.append("&tags=");
        q.append(t);
    }
    proof {
        reveal_strlit("/author/articles?page=");
        reveal_strlit("/author/articles?");
        reveal_strlit("page=");
        let want = "/author/articles?"@ + list_query(
            page,
            limit,
            match category {
                Some(c) => Some(c@),
                None => None,
            },
            match tags {
                Some(t) => Some(t@),
                None => None,
            },
        );
        assert(q@ =~= want);
    }
    Request { method: Method::Get, path: q, body: Body::Empty }
}

pub fn delete_article_version(uri: &str, version: &str) -> (r: Request)
    ensures
        r@ == bare_req(Method::Delete, article_path(uri@) + "/versions/"@ + version@),
{
    let mut p = path_of(uri, "/versions/");
    p.append(version);
    Request { method: Method::Delete, path: p, body: Body::Empty }
}

pub fn get_article_version_list(uri: &str) -> (r: Request)
    ensures
        r@ == bare_req(Method::Get, article_path(uri@) + "/versions"@),
{
    Request { method: Method::Get, path: path_of(uri, "/versions"), body: Body::Empty }
}

pub fn set_article_visibility(uri: &str, visibility: bool) -> (r: Request)
    ensures
        r@ == visibility_req(uri@, visibility),
{
    let mut b = "{\"visibility\":".to_owned();
    b.append(if visibility { "true" } else { "false" });
    b.append("}");
    json_request(Method::Patch, path_of(uri, "/visibility"), b)
}

pub fn set_article_category(uri: &str, category: &str) -> (r: Request)
    ensures
        r@ == category_req(uri@, category@),
{
    let mut b = "{\"category\":".to_owned();
    b.append(json_string(category).as_str());
    b.append("}");
    json_request(Method::Patch, path_of(uri, "/category"), b)
}

/// The JSON array of `items`, without its brackets.
fn json_array(items: &Vec<String>) -> (r: String)
    ensures
        r@ == json_array_items(items@.map_values(|s: String| s@)),
{
    let mut out = String::new();
    let mut i: usize = 0;
    while i < items.len()
        invariant
            i <= items@.len(),
            out@ == json_array_items(items@.subrange(0, i as int).map_values(|s: String| s@)),
        decreases items@.len() - i,
    {
        if i > 0 {
            out.append(",");
        }
        out.append(json_string(items[i].as_str()).as_str());
        i = i + 1;
        proof {
            let v = items@.subrange(0, i as int).map_values(|s: String| s@);
            assert(v.drop_last() =~= items@.subrange(0, i - 1).map_values(|s: String| s@));
            if i == 1 {
                assert(out@ =~= json_quoted(v[0]));
            } else {
                assert(out@ =~= json_array_items(v.drop_last()) + ","@ + json_quoted(v.last()));
            }
        }
    }
    proof {
        assert(items@.subrange(0, i as int) =~= items@);
    }
    out
}

/// Sets the tags of an article from a comma-separated list; each item is
/// trimmed, and the order is kept.
pub fn set_article_tags(uri: &str, tags: &str) -> (r: Request)
    ensures
        r@ == tags_req(uri@, tags@),
{
    let items = split_items(tags);
    proof {
        assert(items@.map_values(|s: String| s@) =~= items_of(tags@));
    }
    let mut b = "{\"tags\":[".to_owned();
    b.append(json_array(&items).as_str());
    b.append("]}");
    json_request(Method::Patch, path_of(uri, "/tags"), b)
}

pub fn set_article_version(uri: &str, version: &str) -> (r: Request)
    ensures
        r@ == version_req(uri@, version@),
{
    let mut b = "{\"version\":".to_owned();
    b.append(json_string(version).as_str());
    b.append("}");
    json_request(Method::Put, path_of(uri, "/tags"), b)
}

/// The full URL of a request.
pub fn url(base: &str, req: &Request) -> (r: String)
    ensures
        r@ == base@ + req.path@,
{
    let mut u = base.to_owned();
    u.append(req.path.as_str());
    u
}

/// The value of the authorization header that carries `token`.
pub fn bearer(token: &str) -> (r: String)
    ensures
        r@ == "Bearer "@ + token@,
{
    let mut h = "Bearer ".to_owned();
    h.append(token);
    h
}

/// Lets a success envelope through and turns any other into the rejection
/// it stands for: a caller never holds an envelope with a failure code.
pub fn return_response<T>(resp: Response<T>) -> (r: Result<Response<T>, ClientError>)
    ensures
        outcome_of(resp.code_view()) == Outcome::Success ==> r == Ok::<
            Response<T>,
            ClientError,
        >(resp),
        outcome_of(resp.code_view()) != Outcome::Success ==> (r matches Err(e) && is_rejection(
            e,
            resp.code_view(),
        )),
{
    match resp.outcome() {
        Outcome::Success => Ok(resp),
        _ => Err(ClientError::from_response(&resp)),
    }
}

/// The token that a login answer issues. A success code is not enough: the
/// token header must be there too.
pub fn login_token(resp: Response<()>, token: Option<String>) -> (r: Result<String, ClientError>)
    ensures
        outcome_of(resp.code_view()) == Outcome::Success && token is None ==> r matches Err(
            ClientError::ServiceError,
        ),
        r is Ok ==> token is Some && outcome_of(resp.code_view()) == Outcome::Success,
        outcome_of(resp.code_view()) != Outcome::Success ==> (r matches Err(e) && is_rejection(
            e,
            resp.code_view(),
        )),
        outcome_of(resp.code_view()) == Outcome::Success ==> match token {
            Some(t) => r matches Ok(s) && s@ == t@,
            None => r matches Err(ClientError::ServiceError),
        },
{
    match return_response(resp) {
        Err(e) => Err(e),
        Ok(_) => match token {
            Some(t) => Ok(t),
            None => Err(ClientError::ServiceError),
        },
    }
}

} // verus!
