use vstd::prelude::*;
use vstd::utf8::{valid_utf8, decode_utf8};
use crate::error::EngineError;
use crate::headers::{HeaderModel, header_model, set_header, unique_names, insert_header};

verus! {

/// Relies on `std::str::from_utf8`: it succeeds exactly on valid UTF-8, and then
/// holds the text that the bytes encode.
#[verifier::external_body]
pub(crate) fn utf8_text(b: &[u8]) -> (r: Option<String>)
    ensures
        r is Some <==> valid_utf8(b@),
        r matches Some(s) ==> s@ == decode_utf8(b@),
{
    std::str::from_utf8(b).ok().map(|s| s.to_string())
}

/// The headers that a request's raw headers give: those whose value is valid UTF-8,
/// as text, a later header of a name replacing an earlier one.
pub open spec fn text_headers(raw: Seq<(String, Vec<u8>)>) -> HeaderModel
    decreases raw.len(),
{
    if raw.len() == 0 {
        Seq::empty()
    } else {
        let prev = text_headers(raw.drop_last());
        let e = raw.last();
        if valid_utf8(e.1@) {
            set_header(prev, e.0@, decode_utf8(e.1@))
        } else {
            prev
        }
    }
}

/// A snapshot of one inbound request, handed to the template.
pub struct Context {
    pub method: String,
    pub url: String,
    pub route: String,
    pub path: String,
    pub query: String,
    pub params: Vec<(String, String)>,
    pub vars: Vec<(String, String)>,
    pub headers: Vec<(String, String)>,
    pub body: Vec<u8>,
}

impl Context {
    /// The headers have unique names.
    pub open spec fn wf(&self) -> bool {
        unique_names(header_model(self.headers@))
    }

    /// Builds the snapshot of a request from its parts: the matched route pattern, the
    /// route and query variables, the method, the full URL with its path and query,
    /// the raw headers and the body. Headers whose value is not valid UTF-8 are left out.
    pub fn new(
        route: String,
        params: Vec<(String, String)>,
        vars: Vec<(String, String)>,
        method: String,
        url: String,
        path: String,
        query: Option<String>,
        raw_headers: Vec<(String, Vec<u8>)>,
        body: Vec<u8>,
    ) -> (r: Context)
        ensures
            r.wf(),
            r.method == method,
            r.url == url,
            r.route == route,
            r.path == path,
            r.query@ == match query {
                Some(q) => q@,
                None => Seq::<char>::empty(),
            },
            r.params == params,
            r.vars == vars,
            header_model(r.headers@) == text_headers(raw_headers@),
            r.body == body,
    {
        let mut headers: Vec<(String, String)> = Vec::new();
        let mut i: usize = 0;
        assert(raw_headers@.subrange(0, 0) =~= Seq::<(String, Vec<u8>)>::empty());
        assert(header_model(headers@) =~= Seq::<(Seq<char>, Seq<char>)>::empty());
        while i < raw_headers.len()
            invariant
                i <= raw_headers@.len(),
                header_model(headers@) == text_headers(raw_headers@.subrange(0, i as int)),
                unique_names(header_model(headers@)),
            decreases raw_headers.len() - i,
        {
            let ghost pre = raw_headers@.subrange(0, i as int);
            assert(raw_headers@.subrange(0, i + 1).drop_last() =~= pre);
            assert(raw_headers@.subrange(0, i + 1).last() == raw_headers@[i as int]);
            if let Some(text) = utf8_text(raw_headers[i].1.as_slice()) {
                insert_header(&mut headers, raw_headers[i].0.clone(), text);
            }
            i = i + 1;
        }
        assert(raw_headers@.subrange(0, raw_headers@.len() as int) =~= raw_headers@);
        let query = match query {
            Some(q) => q,
            None => String::new(),
        };
        Context { method, url, route, path, query, params, vars, headers, body }
    }

    /// The body as text, for a template that takes it so.
    pub fn body_text(&self) -> (r: Result<String, EngineError>)
        ensures
            r is Ok <==> valid_utf8(self.body@),
            r matches Ok(s) ==> s@ == decode_utf8(self.body@),
            r is Err ==> r matches Err(EngineError::BodyDecode),
    {
        match utf8_text(self.body.as_slice()) {
            Some(s) => Ok(s),
            None => Err(EngineError::BodyDecode),
        }
    }
}

} // verus!
