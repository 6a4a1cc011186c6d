use vstd::prelude::*;
use vstd::string::*;
use crate::value::{Val, StateBag, is_absent, lookup};
use crate::directive::{
    DecodeIssue, Field, Modify, ModifyModel, Target, forward_issue, modify_model, object_entries, text_field,
    bytes_field, headers_field,
};
use crate::headers::{
    HeaderModel, header_model, set_header, apply_headers, all_valid, header_value_ok,
    insert_header, apply_header_list, headers_sendable, valid_header_value,
};
use crate::context::Context;
use crate::error::EngineError;

verus! {

/// The directive that asked for an outbound request.
#[derive(PartialEq, Eq, Structural, Clone, Copy, Debug)]
pub enum Directive {
    Proxy,
    Redirect,
}

/// A request to send to another origin.
pub struct Outbound {
    pub method: String,
    pub url: String,
    pub headers: Vec<(String, String)>,
    pub body: Vec<u8>,
}

pub ghost struct OutboundModel {
    pub method: Seq<char>,
    pub url: Seq<char>,
    pub headers: HeaderModel,
    pub body: Seq<u8>,
}

impl View for Outbound {
    type V = OutboundModel;

    open spec fn view(&self) -> OutboundModel {
        OutboundModel {
            method: self.method@,
            url: self.url@,
            headers: header_model(self.headers@),
            body: self.body@,
        }
    }
}

/// The headers that a `proxy` or `redirect` object adds.
pub open spec fn directive_headers(v: Val) -> HeaderModel {
    match headers_field(object_entries(v), Field::Headers) {
        Some(Some(h)) => header_model(h),
        _ => Seq::empty(),
    }
}

/// The request that a well formed `proxy` or `redirect` object asks for, given the
/// inbound method, headers and body. Its own method and body replace the inbound
/// ones where it has them. A proxy sets its own headers first and the inbound ones
/// after, so that the inbound ones win; a redirect does the reverse.
pub open spec fn outbound_model(kind: Directive, method: Seq<char>, inbound: HeaderModel, body: Seq<u8>, v: Val) -> OutboundModel {
    let m = object_entries(v);
    let own = directive_headers(v);
    OutboundModel {
        method: match text_field(m, Field::Method) {
            Some(Some(s)) => s@,
            _ => method,
        },
        url: match text_field(m, Field::Url) {
            Some(Some(s)) => s@,
            _ => Seq::empty(),
        },
        headers: match kind {
            Directive::Proxy => apply_headers(apply_headers(Seq::empty(), own), inbound),
            Directive::Redirect => apply_headers(apply_headers(Seq::empty(), inbound), own),
        },
        body: match bytes_field(m, Field::Body) {
            Some(Some(b)) => b,
            _ => body,
        },
    }
}

/// Every header of the outbound request can be sent.
pub open spec fn sendable(inbound: HeaderModel, v: Val) -> bool {
    all_valid(inbound) && all_valid(directive_headers(v))
}

/// The error of a failed outbound request of `kind`, with message `msg`.
pub open spec fn is_dispatch_error(kind: Directive, e: EngineError, msg: Seq<char>) -> bool {
    match e {
        EngineError::ProxyDispatch(m) => kind == Directive::Proxy && m@ == msg,
        EngineError::RedirectDispatch(m) => kind == Directive::Redirect && m@ == msg,
        _ => false,
    }
}

/// The message of a request that has a header that cannot be sent.
pub open spec fn unsendable_message() -> Seq<char> {
    "request has a header that cannot be sent"@
}

/// What building the outbound request of a `proxy` or `redirect` value gives.
pub open spec fn forward_holds(
    kind: Directive,
    method: Seq<char>,
    inbound: HeaderModel,
    body: Seq<u8>,
    v: Val,
    r: Result<Outbound, EngineError>,
) -> bool {
    match forward_issue(v) {
        Some(e) => r matches Err(EngineError::DirectiveDecode(k, i)) && k == kind && i == e,
        None => if sendable(inbound, v) {
            r matches Ok(o) && o@ == outbound_model(kind, method, inbound, body, v)
        } else {
            r matches Err(e) && is_dispatch_error(kind, e, unsendable_message())
        },
    }
}

fn dispatch_error(kind: Directive, msg: String) -> (e: EngineError)
    ensures
        is_dispatch_error(kind, e, msg@),
{
    match kind {
        Directive::Proxy => EngineError::ProxyDispatch(msg),
        Directive::Redirect => EngineError::RedirectDispatch(msg),
    }
}

fn copy_bytes(b: &Vec<u8>) -> (r: Vec<u8>)
    ensures
        r@ == b@,
{
    let r = b.clone();
    assert(r@ =~= b@);
    r
}

/// Builds the outbound request that the target read from a `proxy` or `redirect`
/// value `v` asks for.
fn forward(
    kind: Directive,
    method: &String,
    headers: &Vec<(String, String)>,
    body: &Vec<u8>,
    target: Target,
    v: Ghost<Val>,
) -> (r: Result<Outbound, EngineError>)
    requires
        forward_issue(v@) is None,
        target.read_from(v@),
    ensures
        forward_holds(kind, method@, header_model(headers@), body@, v@, r),
{
    let own: Vec<(String, String)> = match target.headers {
        Some(h) => h,
        None => {
            let e: Vec<(String, String)> = Vec::new();
            assert(header_model(e@) =~= Seq::<(Seq<char>, Seq<char>)>::empty());
            e
        },
    };
    assert(header_model(own@) == directive_headers(v@));
    if !headers_sendable(&own) || !headers_sendable(headers) {
        return Err(dispatch_error(kind, String::from_str("request has a header that cannot be sent")));
    }
    let mut out: Vec<(String, String)> = Vec::new();
    assert(header_model(out@) =~= Seq::<(Seq<char>, Seq<char>)>::empty());
    match kind {
        Directive::Proxy => {
            apply_header_list(&mut out, &own);
            apply_header_list(&mut out, headers);
        },
        Directive::Redirect => {
            apply_header_list(&mut out, headers);
            apply_header_list(&mut out, &own);
        },
    }
    let method = match target.method {
        Some(m) => m,
        None => method.clone(),
    };
    let body = match target.body {
        Some(b) => b,
        None => copy_bytes(body),
    };
    Ok(Outbound { method, url: target.url, headers: out, body })
}

/// A `proxy` directive: the request goes to another origin, whose answer is the reply.
pub struct Proxy {
    pub target: Target,
}

impl Proxy {
    /// Reads a `proxy` value.
    pub fn decode(v: &Val) -> (r: Result<Proxy, DecodeIssue>)
        ensures
            match forward_issue(*v) {
                Some(e) => r == Err::<Proxy, DecodeIssue>(e),
                None => r matches Ok(p) && p.target.read_from(*v),
            },
    {
        Ok(Proxy { target: Target::decode(v)? })
    }

    /// Builds the outbound request of a `proxy` value, from the inbound method, headers and body.
    pub fn new(method: &String, headers: &Vec<(String, String)>, body: &Vec<u8>, proxy: &Val) -> (r: Result<Outbound, EngineError>)
        ensures
            forward_holds(Directive::Proxy, method@, header_model(headers@), body@, *proxy, r),
    {
        match Proxy::decode(proxy) {
            Ok(p) => forward(Directive::Proxy, method, headers, body, p.target, Ghost(*proxy)),
            Err(e) => Err(EngineError::DirectiveDecode(Directive::Proxy, e)),
        }
    }
}

/// A `redirect` directive: the request is sent on with the directive's changes, and the
/// answer is relayed.
pub struct Redirect {
    pub target: Target,
}

impl Redirect {
    /// Reads a `redirect` value.
    pub fn decode(v: &Val) -> (r: Result<Redirect, DecodeIssue>)
        ensures
            match forward_issue(*v) {
                Some(e) => r == Err::<Redirect, DecodeIssue>(e),
                None => r matches Ok(d) && d.target.read_from(*v),
            },
    {
        Ok(Redirect { target: Target::decode(v)? })
    }

    /// Builds the outbound request of a `redirect` value, from the inbound method, headers and body.
    pub fn new(method: &String, headers: &Vec<(String, String)>, body: &Vec<u8>, redirect: &Val) -> (r: Result<Outbound, EngineError>)
        ensures
            forward_holds(Directive::Redirect, method@, header_model(headers@), body@, *redirect, r),
    {
        match Redirect::decode(redirect) {
            Ok(d) => forward(Directive::Redirect, method, headers, body, d.target, Ghost(*redirect)),
            Err(e) => Err(EngineError::DirectiveDecode(Directive::Redirect, e)),
        }
    }
}

/// A reply made here from the rendered body.
pub struct Reply {
    pub status: u16,
    pub headers: Vec<(String, String)>,
    pub body: Vec<u8>,
}

/// A status code that HTTP can carry: three digits.
pub open spec fn valid_status(s: u16) -> bool {
    100 <= s <= 999
}

/// The status of a direct reply: the `modify` status where it is a valid code, else 200.
pub open spec fn reply_status(m: Option<ModifyModel>) -> u16 {
    match m {
        Some(md) => match md.status {
            Some(s) => if valid_status(s) {
                s
            } else {
                200
            },
            None => 200,
        },
        None => 200,
    }
}

/// The headers a direct reply starts with: the content type, where there is a sendable one.
pub open spec fn base_headers(content_type: Option<Seq<char>>) -> HeaderModel {
    match content_type {
        Some(c) => if header_value_ok(c) {
            seq![("content-type"@, c)]
        } else {
            Seq::empty()
        },
        None => Seq::empty(),
    }
}

/// The headers that a `modify` value sets.
pub open spec fn modify_headers(m: Option<ModifyModel>) -> HeaderModel {
    match m {
        Some(md) => match md.headers {
            Some(h) => header_model(h),
            None => Seq::empty(),
        },
        None => Seq::empty(),
    }
}

/// The name by which replies made here identify the server.
pub open spec fn server_name() -> Seq<char> {
    "minirps"@
}

/// The headers of a direct reply: the content type, then the `modify` headers over
/// it, then the server's name, which nothing overrides.
pub open spec fn reply_headers(content_type: Option<Seq<char>>, m: Option<ModifyModel>) -> HeaderModel {
    set_header(apply_headers(base_headers(content_type), modify_headers(m)), "server"@, server_name())
}

pub open spec fn text_view(s: Option<String>) -> Option<Seq<char>> {
    match s {
        Some(t) => Some(t@),
        None => None,
    }
}

pub open spec fn modify_view(m: Option<Modify>) -> Option<ModifyModel> {
    match m {
        Some(md) => Some(md@),
        None => None,
    }
}

/// Makes the direct reply: the rendered body with status 200 and the content type,
/// changed as the `modify` value asks.
pub fn assemble(body: Vec<u8>, content_type: &Option<String>, modify: &Option<Modify>) -> (r: Reply)
    ensures
        r.status == reply_status(modify_view(*modify)),
        header_model(r.headers@) == reply_headers(text_view(*content_type), modify_view(*modify)),
        r.body == body,
{
    let mut headers: Vec<(String, String)> = Vec::new();
    assert(header_model(headers@) =~= Seq::<(Seq<char>, Seq<char>)>::empty());
    if let Some(ct) = content_type {
        if valid_header_value(ct.as_str()) {
            insert_header(&mut headers, String::from_str("content-type"), ct.clone());
            assert(header_model(headers@) =~= seq![("content-type"@, ct@)]);
        }
    }
    let mut status: u16 = 200;
    if let Some(md) = modify {
        if let Some(s) = md.status {
            if 100 <= s && s <= 999 {
                status = s;
            }
        }
        if let Some(h) = &md.headers {
            apply_header_list(&mut headers, h);
        }
    }
    proof {
        if modify is None || modify->Some_0.headers is None {
            assert(modify_headers(modify_view(*modify)) =~= Seq::<(Seq<char>, Seq<char>)>::empty());
        }
    }
    insert_header(&mut headers, String::from_str("server"), String::from_str("minirps"));
    Reply { status, headers, body }
}

/// What a rendered template asks for.
pub enum Resolution {
    /// A reply made here.
    Reply(Reply),
    /// A request to send on; its answer is the reply.
    Forward(Directive, Outbound),
}

/// What the bag holds under `key`, where it holds something.
pub open spec fn present(bag: StateBag, key: Seq<char>) -> bool {
    !is_absent(bag.get(key))
}

/// The `modify` request of a bag: none where it is absent or not well formed.
pub open spec fn modify_of(bag: StateBag) -> Option<ModifyModel> {
    if present(bag, "modify"@) {
        modify_model(bag.get("modify"@)->Some_0)
    } else {
        None
    }
}

/// What resolving a bag gives, as `forward_holds` says for a forward.
pub open spec fn forward_resolution(kind: Directive, ctx: Context, v: Val, r: Result<Resolution, EngineError>) -> bool {
    match r {
        Ok(Resolution::Forward(k, o)) => k == kind && forward_holds(kind, ctx.method@, header_model(ctx.headers@), ctx.body@, v, Ok(o)),
        Ok(Resolution::Reply(_)) => false,
        Err(e) => forward_holds(kind, ctx.method@, header_model(ctx.headers@), ctx.body@, v, Err(e)),
    }
}

/// What resolving a bag without `proxy` or `redirect` gives: the direct reply.
pub open spec fn direct_resolution(bag: StateBag, content_type: Option<Seq<char>>, rendered: Seq<u8>, r: Result<Resolution, EngineError>) -> bool {
    match r {
        Ok(Resolution::Reply(rep)) => {
            &&& rep.status == reply_status(modify_of(bag))
            &&& header_model(rep.headers@) == reply_headers(content_type, modify_of(bag))
            &&& rep.body@ == rendered
        },
        _ => false,
    }
}

/// Decides what to answer, from the request, the rendered body, the content type of
/// the template and the bag the template left. A `proxy` value wins over a `redirect`
/// value, and either over a direct reply; a value that is there but malformed fails
/// the request, and `modify` is read for a direct reply only.
pub fn resolve(ctx: &Context, rendered: Vec<u8>, content_type: &Option<String>, bag: &StateBag) -> (r: Result<Resolution, EngineError>)
    ensures
        present(*bag, "proxy"@) ==> forward_resolution(Directive::Proxy, *ctx, bag.get("proxy"@)->Some_0, r),
        !present(*bag, "proxy"@) && present(*bag, "redirect"@)
            ==> forward_resolution(Directive::Redirect, *ctx, bag.get("redirect"@)->Some_0, r),
        !present(*bag, "proxy"@) && !present(*bag, "redirect"@)
            ==> direct_resolution(*bag, text_view(*content_type), rendered@, r),
{
    let proxy_key = String::from_str("proxy");
    if let Some(v) = lookup(&bag.entries, &proxy_key) {
        match v {
            Val::Null | Val::Undefined => {},
            _ => {
                let o = Proxy::new(&ctx.method, &ctx.headers, &ctx.body, v)?;
                return Ok(Resolution::Forward(Directive::Proxy, o));
            },
        }
    }
    let redirect_key = String::from_str("redirect");
    if let Some(v) = lookup(&bag.entries, &redirect_key) {
        match v {
            Val::Null | Val::Undefined => {},
            _ => {
                let o = Redirect::new(&ctx.method, &ctx.headers, &ctx.body, v)?;
                return Ok(Resolution::Forward(Directive::Redirect, o));
            },
        }
    }
    let modify_key = String::from_str("modify");
    let modify: Option<Modify> = match lookup(&bag.entries, &modify_key) {
        Some(Val::Null) | Some(Val::Undefined) | None => None,
        Some(v) => match Modify::new(v) {
            Ok(md) => Some(md),
            Err(_) => None,
        },
    };
    Ok(Resolution::Reply(assemble(rendered, content_type, &modify)))
}

/// What the outbound request of a forward gave: the upstream answer as it came.
pub struct Upstream {
    pub status: u16,
    pub headers: Vec<(String, Vec<u8>)>,
    pub body: Vec<u8>,
}

/// Turns the result of sending a forward's request into the answer: the upstream
/// answer unchanged, or the failure as the error of that directive.
pub fn finish(kind: Directive, sent: Result<Upstream, String>) -> (r: Result<Upstream, EngineError>)
    ensures
        sent matches Ok(u) ==> r matches Ok(a) && a == u,
        sent matches Err(m) ==> r matches Err(e) && is_dispatch_error(kind, e, m@),
{
    match sent {
        Ok(u) => Ok(u),
        Err(m) => Err(dispatch_error(kind, m)),
    }
}

/// The MIME type that a file name's extension suggests.
pub uninterp spec fn mime_of(path: Seq<char>) -> Option<Seq<char>>;

/// Relies on `mime_guess::from_path(..).first_raw()`: the first MIME type known for
/// the extension of the path, from the path alone.
#[verifier::external_body]
fn guess_mime(path: &str) -> (r: Option<String>)
    ensures
        match r {
            Some(m) => mime_of(path@) == Some(m@),
            None => mime_of(path@) is None,
        },
{
    mime_guess::from_path(path).first_raw().map(|m| m.to_string())
}

/// The content type of the replies a template makes: the MIME type of its file name,
/// where there is one that can be sent as a header.
pub fn content_type_for(template: &str) -> (r: Option<String>)
    ensures
        text_view(r) == match mime_of(template@) {
            Some(m) => if header_value_ok(m) {
                Some(m)
            } else {
                None
            },
            None => None,
        },
{
    match guess_mime(template) {
        Some(m) => if valid_header_value(m.as_str()) {
            Some(m)
        } else {
            None
        },
        None => None,
    }
}

} // verus!
