//! Error pages of the human-facing routes.
use vstd::prelude::*;

verus! {

/// Whether a response with `status` is replaced by the rendered error page:
/// it is when the status is a server error (500 to 599) and the response
/// carries an error context to render.
pub fn should_render_error_page(status: u16, has_error_context: bool) -> (r: bool)
    ensures
        r == (500 <= status && status <= 599 && has_error_context),
{
    500 <= status && status <= 599 && has_error_context
}

/// A response as plain values: its status, its headers as name and value
/// (names in lower case, as the HTTP layer keeps them) and its body.
#[derive(Debug)]
pub struct PageResponse {
    pub status: u16,
    pub headers: Vec<(String, String)>,
    pub body: String,
}

/// The content type of a rendered HTML page.
pub open spec fn html_content_type() -> Seq<char> {
    "text/html; charset=utf-8"@
}

/// The header is not a content type.
pub open spec fn keeps_header(h: (String, String)) -> bool {
    h.0@ != "content-type"@
}

/// The views of headers.
pub open spec fn header_texts(h: Seq<(String, String)>) -> Seq<(Seq<char>, Seq<char>)> {
    h.map_values(|p: (String, String)| (p.0@, p.1@))
}

/// The response that replaces a server error with its rendered error
/// `page`: the status and the headers are kept, except the content type,
/// which becomes that of an HTML page (added last), and the body is the
/// page.
pub fn with_error_page(status: u16, headers: &Vec<(String, String)>, page: String) -> (r: PageResponse)
    ensures
        r.status == status,
        header_texts(r.headers@) == header_texts(headers@.filter(|h: (String, String)| keeps_header(h))).push(
            ("content-type"@, html_content_type()),
        ),
        r.body == page,
{
    let content_type = String::from_str("content-type");
    let ghost keep = |h: (String, String)| keeps_header(h);
    let n = headers.len();
    let mut kept: Vec<(String, String)> = Vec::new();
    let mut i: usize = 0;
    while i < n
        invariant
            n == headers@.len(),
            i <= n,
            content_type@ == "content-type"@,
            keep == (|h: (String, String)| keeps_header(h)),
            header_texts(kept@) == header_texts(headers@.take(i as int).filter(keep)),
        decreases n - i,
    {
        let ghost before = kept@;
        let name = headers[i].0.clone();
        let value = headers[i].1.clone();
        proof {
            reveal(Seq::filter);
            assert(headers@.take(i + 1).drop_last() =~= headers@.take(i as int));
            assert(headers@.take(i + 1).last() == headers@[i as int]);
        }
        if !(name == content_type) {
            kept.push((name, value));
            assert(header_texts(kept@) =~= header_texts(before).push((headers@[i as int].0@, headers@[i as int].1@)));
        } else {
            assert(kept@ == before);
        }
        i = i + 1;
    }
    assert(headers@.take(n as int) =~= headers@);
    let ghost before = kept@;
    kept.push((content_type, String::from_str("text/html; charset=utf-8")));
    assert(header_texts(kept@) =~= header_texts(before).push(("content-type"@, html_content_type())));
    PageResponse { status, headers: kept, body: page }
}

} // verus!
