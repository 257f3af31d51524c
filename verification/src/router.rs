//! HTTP routing: which reply each request gets.

use vstd::prelude::*;

verus! {

/// An HTTP reply: status code, `Content-Type` header and optional body
/// (`None` is an empty body).
#[derive(Debug, Clone)]
pub struct HttpReply {
    pub status: u16,
    pub content_type: String,
    pub body: Option<String>,
}

/// The content type of every reply.
pub open spec fn spec_content_type() -> Seq<char> {
    "text/html; charset=utf-8"@
}

/// The reply with status `code` and, if given, message `msg` as its body.
/// A status code is three digits, 100 to 999.
pub fn from_code_and_msg(code: u16, msg: Option<&str>) -> (reply: HttpReply)
    requires
        100 <= code <= 999,
    ensures
        reply.status == code,
        reply.content_type@ == spec_content_type(),
        match msg {
            None => reply.body is None,
            Some(m) => reply.body matches Some(b) && b@ == m@,
        },
{
    HttpReply {
        status: code,
        content_type: "text/html; charset=utf-8".to_owned(),
        body: match msg {
            None => None,
            Some(m) => Some(m.to_owned()),
        },
    }
}

/// The reply of the main route: 201 with "main route".
pub fn main_route() -> (reply: HttpReply)
    ensures
        reply.status == 201,
        reply.content_type@ == spec_content_type(),
        reply.body matches Some(b) && b@ == "main route"@,
{
    from_code_and_msg(201, Some("main route"))
}

/// Routes a request by method and path: `GET /` is the main route; every
/// other request is answered 404 with "404: Route not found".
pub fn router(method: &str, path: &str) -> (reply: HttpReply)
    ensures
        reply.content_type@ == spec_content_type(),
        (method@ == "GET"@ && path@ == "/"@) ==> reply.status == 201 && (reply.body matches Some(b)
            && b@ == "main route"@),
        !(method@ == "GET"@ && path@ == "/"@) ==> reply.status == 404 && (reply.body matches Some(b)
            && b@ == "404: Route not found"@),
{
    if method.to_owned() == "GET".to_owned() && path.to_owned() == "/".to_owned() {
        main_route()
    } else {
        from_code_and_msg(404, Some("404: Route not found"))
    }
}

} // verus!
