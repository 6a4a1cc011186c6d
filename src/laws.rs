//! Properties that hold across the functions of the engine.
use vstd::prelude::*;
use crate::value::{Val, StateBag, find, is_absent};
use crate::directive::{Field, forward_issue, modify_model, object_entries, headers_field};
use crate::headers::{
    HeaderModel, header_value, apply_headers, last_header, header_value_ok,
    lemma_apply_headers, lemma_set_header,
};
use crate::engine::{
    Directive, Resolution, outbound_model, directive_headers, present, modify_of, reply_status,
    reply_headers, base_headers, modify_headers, server_name, forward_resolution,
};
use crate::context::Context;
use crate::error::EngineError;

verus! {

/// A bag in which the template set nothing gives a direct reply: status 200, and the
/// content type of the template where there is a sendable one.
pub proof fn law_empty_bag_replies_directly(bag: StateBag, content_type: Option<Seq<char>>)
    requires
        bag.entries@.len() == 0,
    ensures
        !present(bag, "proxy"@),
        !present(bag, "redirect"@),
        modify_of(bag) is None,
        reply_status(modify_of(bag)) == 200,
        header_value(reply_headers(content_type, modify_of(bag)), "content-type"@) == match content_type {
            Some(c) => if header_value_ok(c) {
                Some(c)
            } else {
                None
            },
            None => None,
        },
{
    reveal_strlit("content-type");
    reveal_strlit("server");
    let base = base_headers(content_type);
    assert(modify_headers(modify_of(bag)) =~= Seq::<(Seq<char>, Seq<char>)>::empty());
    assert(apply_headers(base, Seq::empty()) == base);
    assert("content-type"@ != "server"@) by {
        assert("content-type"@[0] != "server"@[0]);
    }
    lemma_set_header(base, "server"@, server_name(), "content-type"@);
    if base.len() > 0 {
        assert(base[0].0 == "content-type"@);
        assert(base.drop_first().len() == 0);
    }
}

/// On a proxy, the inbound headers win: a header reads as the last inbound header
/// that sets it, and as the directive's own only where no inbound header does.
pub proof fn law_proxy_inbound_headers_win(method: Seq<char>, inbound: HeaderModel, body: Seq<u8>, v: Val, name: Seq<char>)
    ensures
        header_value(outbound_model(Directive::Proxy, method, inbound, body, v).headers, name)
            == match last_header(inbound, name) {
            Some(x) => Some(x),
            None => last_header(directive_headers(v), name),
        },
{
    let own = directive_headers(v);
    let empty = Seq::<(Seq<char>, Seq<char>)>::empty();
    lemma_apply_headers(empty, own, name);
    lemma_apply_headers(apply_headers(empty, own), inbound, name);
}

/// On a redirect, the directive's headers win: a header reads as the directive's last
/// one that sets it, and as the inbound one only where the directive sets none.
pub proof fn law_redirect_directive_headers_win(method: Seq<char>, inbound: HeaderModel, body: Seq<u8>, v: Val, name: Seq<char>)
    ensures
        header_value(outbound_model(Directive::Redirect, method, inbound, body, v).headers, name)
            == match last_header(directive_headers(v), name) {
            Some(x) => Some(x),
            None => last_header(inbound, name),
        },
{
    let own = directive_headers(v);
    let empty = Seq::<(Seq<char>, Seq<char>)>::empty();
    lemma_apply_headers(empty, inbound, name);
    lemma_apply_headers(apply_headers(empty, inbound), own, name);
}

/// The `modify` status of a direct reply: an integer status that is a valid code is
/// the reply's status; any other integer leaves it at 200.
pub proof fn law_modify_status(v: Val, n: i128)
    requires
        v is Object,
        find(object_entries(v), "status"@) == Some(Val::Int(n)),
        headers_field(object_entries(v), Field::Headers) is Some,
    ensures
        reply_status(modify_model(v)) == if 100 <= n <= 999 {
            n as u16
        } else {
            200u16
        },
{
}

/// A proxy without its own method or body sends the inbound method and body.
pub proof fn law_proxy_keeps_inbound_method_and_body(method: Seq<char>, inbound: HeaderModel, body: Seq<u8>, v: Val)
    requires
        is_absent(find(object_entries(v), "method"@)),
        is_absent(find(object_entries(v), "body"@)),
    ensures
        outbound_model(Directive::Proxy, method, inbound, body, v).method == method,
        outbound_model(Directive::Proxy, method, inbound, body, v).body == body,
{
}

/// A `proxy` value without a `url` fails the request with a decode error; it never
/// falls through to another strategy.
pub proof fn law_proxy_without_url_fails(ctx: Context, v: Val, r: Result<Resolution, EngineError>)
    requires
        is_absent(find(object_entries(v), "url"@)),
        forward_resolution(Directive::Proxy, ctx, v, r),
    ensures
        forward_issue(v) is Some,
        r matches Err(EngineError::DirectiveDecode(k, _)) && k == Directive::Proxy,
{
}

} // verus!
