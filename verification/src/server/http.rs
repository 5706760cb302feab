//! What the web server answers: a `GET` for a path gets the stored file of
//! that name (`index.html` for the empty path); anything else gets "not
//! found".

use vstd::prelude::*;
use vstd::string::StrSliceExecFns;
use vstd::utf8::{decode_utf8, valid_utf8};

use crate::server::file_store::{File, FileStore};

verus! {

/// A request: its method and the requested path without its leading `/`.
#[derive(Clone)]
pub struct HttpRequest(pub String, pub String);

/// What the server sends back for a request.
pub enum HttpResponse {
    /// 200: the file.
    Found(File),
    /// 404, with this HTML page; after it the server exits with status 1.
    NotFound(String),
}

/// The characters that `String::from_utf8_lossy` makes of `bytes`.
pub uninterp spec fn lossy_utf8_of(bytes: Seq<u8>) -> Seq<char>;

/// `String::from_utf8_lossy`, made an owned `String`. Its result is named by
/// `lossy_utf8_of`; its documentation says that valid UTF-8 is decoded as
/// it is, and that is stated. How invalid sequences are replaced is not.
#[verifier::external_body]
fn from_utf8_lossy(bytes: &[u8]) -> (r: String)
    ensures
        r@ == lossy_utf8_of(bytes@),
        valid_utf8(bytes@) ==> r@ == decode_utf8(bytes@),
{
    String::from_utf8_lossy(bytes).into_owned()
}

/// The HTML page that `malvolio` renders with `title` as the title in its
/// head and `heading` as the one `h1` of its body.
pub uninterp spec fn html_page_of(title: Seq<char>, heading: Seq<char>) -> Seq<char>;

/// Renders, with `malvolio`, a page with the title `title` and the heading
/// `heading`, as a string. The page is named by `html_page_of`; nothing more
/// of its text is stated.
#[verifier::external_body]
fn render_page(title: &str, heading: &str) -> (r: String)
    ensures
        r@ == html_page_of(title@, heading@),
{
    malvolio::prelude::html()
        .head(malvolio::prelude::head().child(malvolio::prelude::title(title)))
        .body(malvolio::prelude::body().h1(malvolio::prelude::h1(heading)))
        .to_string()
}

/// The page sent with a 404.
pub open spec fn not_found_page() -> Seq<char> {
    html_page_of("There be dragons here"@, "404 Not Found"@)
}

/// The requested path: the target without its leading `/`; empty when the
/// target does not start with `/`.
pub open spec fn path_of_target(target: Seq<char>) -> Seq<char> {
    if target.len() > 0 && target[0] == '/' {
        target.drop_first()
    } else {
        Seq::empty()
    }
}

/// The name of the file that a request asks for: for `GET`, the path, or
/// `index.html` when the path is empty; nothing for any other method.
pub open spec fn file_asked_for(method: Seq<char>, path: Seq<char>) -> Option<Seq<char>> {
    if method == "GET"@ {
        if path.len() == 0 {
            Some("index.html"@)
        } else {
            Some(path)
        }
    } else {
        None
    }
}

/// A `GET` asks for the file named by its path, as it is, or for
/// `index.html` when the path is empty; no other method asks for a file.
pub proof fn lemma_file_asked_for(method: Seq<char>, path: Seq<char>)
    ensures
        method == "GET"@ && path.len() > 0 ==> file_asked_for(method, path) == Some(path),
        method == "GET"@ && path.len() == 0 ==> file_asked_for(method, path) == Some("index.html"@),
        method != "GET"@ ==> file_asked_for(method, path) is None,
{
}

/// A request line whose target is `/` followed by a name asks, with `GET`,
/// for the file of exactly that name.
pub proof fn lemma_request_line_asks_for_its_path(method: Seq<char>, target: Seq<char>)
    requires
        target.len() > 1,
        target[0] == '/',
    ensures
        path_of_target(target) == target.drop_first(),
        method == "GET"@ ==> file_asked_for(method, path_of_target(target)) == Some(target.drop_first()),
{
}

impl HttpRequest {
    /// The request that a request line makes of the raw method and target.
    pub fn from_request_line(method: &[u8], target: &[u8]) -> (r: HttpRequest)
        ensures
            r.0@ == lossy_utf8_of(method@),
            r.1@ == path_of_target(lossy_utf8_of(target@)),
    {
        let method = from_utf8_lossy(method);
        let target = from_utf8_lossy(target);
        let t = target.as_str();
        let n = t.unicode_len();
        let path = if n > 0 && t.get_char(0) == '/' {
            let rest = t.substring_char(1, n);
            assert(rest@ =~= target@.drop_first());
            rest.to_owned()
        } else {
            String::new()
        };
        HttpRequest(method, path)
    }

    /// The name of the file the request asks for, if any.
    pub fn file_name(&self) -> (r: Option<String>)
        ensures
            r is Some <==> file_asked_for(self.0@, self.1@) is Some,
            r matches Some(name) ==> file_asked_for(self.0@, self.1@) == Some(name@),
    {
        let get = "GET".to_owned();
        if self.0 == get {
            if self.1.as_str().is_empty() {
                Some("index.html".to_owned())
            } else {
                Some(self.1.clone())
            }
        } else {
            None
        }
    }
}

/// The answer to `request`: the stored file it asks for, or "not found"
/// with the page [`not_found_page`].
pub fn respond(files: &FileStore, request: &HttpRequest) -> (r: HttpResponse)
    ensures
        ({
            let asked = file_asked_for(request.0@, request.1@);
            match r {
                HttpResponse::Found(f) => asked is Some && files.file_map().contains_key(asked->0) && f@
                    == files.file_map()[asked->0],
                HttpResponse::NotFound(page) => (asked is None || !files.file_map().contains_key(asked->0))
                    && page@ == not_found_page(),
            }
        }),
{
    match request.file_name() {
        Some(name) => match files.handle(name.as_str()) {
            Some(f) => return HttpResponse::Found(f),
            None => {},
        },
        None => {},
    }
    HttpResponse::NotFound(render_page("There be dragons here", "404 Not Found"))
}

} // verus!
